//! What a download URL tells about the installer behind it.

use crate::manifests::installer_manifest::Scope;
use crate::text::{
    chars_of, contains, find_first, find_last, last_occurrence, lowercase_of, occurs_at,
    to_ascii_lowercase, to_lowercase, ascii_lowercase_of,
};
use crate::types::architecture::Architecture;
use vstd::prelude::*;

verus! {

/// The file extensions of the installer families, in the order in which they
/// are tried.
pub open spec fn valid_file_extensions() -> Seq<Seq<char>> {
    seq!["msix"@, "msi"@, "appx"@, "exe"@, "zip"@, "msixbundle"@, "appxbundle"@]
}

/// The words that name an architecture in a URL, each with the architecture
/// it stands for.  A word comes before every word that is a part of it, so
/// that `x86_64` is not read as `x86`.
pub open spec fn architecture_tokens() -> Seq<(Seq<char>, Architecture)> {
    seq![
        ("x86_64"@, Architecture::X64),
        ("x64"@, Architecture::X64),
        ("64-bit"@, Architecture::X64),
        ("64bit"@, Architecture::X64),
        ("win64"@, Architecture::X64),
        ("winx64"@, Architecture::X64),
        ("ia64"@, Architecture::X64),
        ("amd64"@, Architecture::X64),
        ("x86"@, Architecture::X86),
        ("x32"@, Architecture::X86),
        ("32-bit"@, Architecture::X86),
        ("32bit"@, Architecture::X86),
        ("win32"@, Architecture::X86),
        ("winx86"@, Architecture::X86),
        ("ia32"@, Architecture::X86),
        ("i386"@, Architecture::X86),
        ("i486"@, Architecture::X86),
        ("i586"@, Architecture::X86),
        ("i686"@, Architecture::X86),
        ("386"@, Architecture::X86),
        ("486"@, Architecture::X86),
        ("586"@, Architecture::X86),
        ("686"@, Architecture::X86),
        ("arm64"@, Architecture::Arm64),
        ("aarch64"@, Architecture::Arm64),
        ("arm"@, Architecture::Arm),
        ("armv7"@, Architecture::Arm),
        ("aarch"@, Architecture::Arm),
        ("neutral"@, Architecture::Neutral),
    ]
}

/// The characters that may stand on either side of an architecture word.
pub open spec fn is_delimiter(c: char) -> bool {
    c == ',' || c == '/' || c == '\\' || c == '.' || c == '_' || c == '-'
}

/// The last occurrence of `token` in `url` is at `i`, the character right
/// before it is a delimiter, and so is the character right after it, where
/// one follows: the end of `url` closes a word as a delimiter does, its
/// start opens none.
pub open spec fn delimited_at(url: Seq<char>, token: Seq<char>, i: int) -> bool {
    &&& last_occurrence(url, token, i)
    &&& 0 < i
    &&& is_delimiter(url[i - 1])
    &&& i + token.len() == url.len() || is_delimiter(url[i + token.len()])
}

/// The last occurrence of `token` in `url` stands between two delimiters.
pub open spec fn is_delimited(url: Seq<char>, token: Seq<char>) -> bool {
    exists|i: int| delimited_at(url, token, i)
}

/// The architecture of the first word, from index `from` on, whose last
/// occurrence in `url` stands between two delimiters.
pub open spec fn delimited_architecture(url: Seq<char>, from: int) -> Option<Architecture>
    decreases architecture_tokens().len() - from,
{
    if from < 0 || from >= architecture_tokens().len() {
        None
    } else if is_delimited(url, architecture_tokens()[from].0) {
        Some(architecture_tokens()[from].1)
    } else {
        delimited_architecture(url, from + 1)
    }
}

/// `token`, a dot and `extension`.
pub open spec fn with_extension(token: Seq<char>, extension: Seq<char>) -> Seq<char> {
    token.push('.') + extension
}

/// The architecture of the first word, from index `from` on, that stands in
/// `url` right before a dot and `extension`.
pub open spec fn suffixed_architecture(
    url: Seq<char>,
    extension: Seq<char>,
    from: int,
) -> Option<Architecture>
    decreases architecture_tokens().len() - from,
{
    if from < 0 || from >= architecture_tokens().len() {
        None
    } else if contains(url, with_extension(architecture_tokens()[from].0, extension)) {
        Some(architecture_tokens()[from].1)
    } else {
        suffixed_architecture(url, extension, from + 1)
    }
}

/// The architecture found by trying the extensions from index `from` on, and
/// for each of them every word.
pub open spec fn extension_architecture(url: Seq<char>, from: int) -> Option<Architecture>
    decreases valid_file_extensions().len() - from,
{
    if from < 0 || from >= valid_file_extensions().len() {
        None
    } else {
        match suffixed_architecture(url, valid_file_extensions()[from], 0) {
            Some(a) => Some(a),
            None => extension_architecture(url, from + 1),
        }
    }
}

/// The architecture that a URL, already in lower case, names: the first word
/// between delimiters, or else the first word right before a known
/// extension.
pub open spec fn architecture_in(url: Seq<char>) -> Option<Architecture> {
    match delimited_architecture(url, 0) {
        Some(a) => Some(a),
        None => extension_architecture(url, 0),
    }
}

/// The scope that a URL, already in ASCII lower case, names.
pub open spec fn scope_in(url: Seq<char>) -> Option<Scope> {
    if contains(url, "user"@) {
        Some(Scope::User)
    } else if contains(url, "machine"@) {
        Some(Scope::Machine)
    } else {
        None
    }
}

/// The extension at index `i` of the table.
pub fn valid_file_extension(i: usize) -> (r: &'static str)
    requires
        i < 7,
    ensures
        r@ == valid_file_extensions()[i as int],
{
    match i {
        0 => "msix",
        1 => "msi",
        2 => "appx",
        3 => "exe",
        4 => "zip",
        5 => "msixbundle",
        _ => "appxbundle",
    }
}

/// The word at index `i` of the table, and its architecture.
pub fn architecture_token(i: usize) -> (r: (&'static str, Architecture))
    requires
        i < 29,
    ensures
        r.0@ == architecture_tokens()[i as int].0,
        r.1 == architecture_tokens()[i as int].1,
{
    match i {
        0 => ("x86_64", Architecture::X64),
        1 => ("x64", Architecture::X64),
        2 => ("64-bit", Architecture::X64),
        3 => ("64bit", Architecture::X64),
        4 => ("win64", Architecture::X64),
        5 => ("winx64", Architecture::X64),
        6 => ("ia64", Architecture::X64),
        7 => ("amd64", Architecture::X64),
        8 => ("x86", Architecture::X86),
        9 => ("x32", Architecture::X86),
        10 => ("32-bit", Architecture::X86),
        11 => ("32bit", Architecture::X86),
        12 => ("win32", Architecture::X86),
        13 => ("winx86", Architecture::X86),
        14 => ("ia32", Architecture::X86),
        15 => ("i386", Architecture::X86),
        16 => ("i486", Architecture::X86),
        17 => ("i586", Architecture::X86),
        18 => ("i686", Architecture::X86),
        19 => ("386", Architecture::X86),
        20 => ("486", Architecture::X86),
        21 => ("586", Architecture::X86),
        22 => ("686", Architecture::X86),
        23 => ("arm64", Architecture::Arm64),
        24 => ("aarch64", Architecture::Arm64),
        25 => ("arm", Architecture::Arm),
        26 => ("armv7", Architecture::Arm),
        27 => ("aarch", Architecture::Arm),
        _ => ("neutral", Architecture::Neutral),
    }
}

/// Whether `c` may stand on either side of an architecture word.
pub fn delimiter(c: char) -> (r: bool)
    ensures
        r == is_delimiter(c),
{
    c == ',' || c == '/' || c == '\\' || c == '.' || c == '_' || c == '-'
}

/// Whether the last occurrence of `token` in `url` stands between two
/// delimiters.
pub fn delimited(url: &[char], token: &[char]) -> (r: bool)
    ensures
        r == is_delimited(url@, token@),
{
    match find_last(url, token) {
        None => false,
        Some(i) => {
            let found = 0 < i && delimiter(url[i - 1]) && (i == url.len() - token.len()
                || delimiter(url[i + token.len()]));
            proof {
                if found {
                    assert(delimited_at(url@, token@, i as int));
                } else {
                    assert forall|j: int| !delimited_at(url@, token@, j) by {
                        if delimited_at(url@, token@, j) {
                            assert(occurs_at(url@, token@, j));
                            assert(occurs_at(url@, token@, i as int));
                            assert(j == i);
                        }
                    }
                }
            }
            found
        },
    }
}

/// The architecture that a URL names, given the URL in lower case.
pub fn find_architecture_in(lowercase_url: &str) -> (r: Option<Architecture>)
    ensures
        r == architecture_in(lowercase_url@),
{
    let url = chars_of(lowercase_url);
    let mut k: usize = 0;
    while k < 29
        invariant
            k <= 29,
            url@ == lowercase_url@,
            architecture_tokens().len() == 29,
            delimited_architecture(url@, 0) == delimited_architecture(url@, k as int),
        decreases 29 - k,
    {
        let (token, architecture) = architecture_token(k);
        let token = chars_of(token);
        if delimited(url.as_slice(), token.as_slice()) {
            return Some(architecture);
        }
        k += 1;
    }
    let mut e: usize = 0;
    while e < 7
        invariant
            e <= 7,
            url@ == lowercase_url@,
            architecture_tokens().len() == 29,
            valid_file_extensions().len() == 7,
            delimited_architecture(url@, 0) is None,
            extension_architecture(url@, 0) == extension_architecture(url@, e as int),
        decreases 7 - e,
    {
        let extension = chars_of(valid_file_extension(e));
        let mut k: usize = 0;
        while k < 29
            invariant
                k <= 29,
                e < 7,
                architecture_tokens().len() == 29,
                extension@ == valid_file_extensions()[e as int],
                url@ == lowercase_url@,
                delimited_architecture(url@, 0) is None,
                extension_architecture(url@, 0) == extension_architecture(url@, e as int),
                suffixed_architecture(url@, extension@, 0) == suffixed_architecture(
                    url@,
                    extension@,
                    k as int,
                ),
            decreases 29 - k,
        {
            let (token, architecture) = architecture_token(k);
            let mut word = chars_of(token);
            word.push('.');
            let mut i: usize = 0;
            while i < extension.len()
                invariant
                    i <= extension.len(),
                    word@ == token@.push('.') + extension@.take(i as int),
                decreases extension.len() - i,
            {
                word.push(extension[i]);
                i += 1;
            }
            assert(extension@.take(extension.len() as int) == extension@);
            if find_first(url.as_slice(), word.as_slice()).is_some() {
                return Some(architecture);
            }
            k += 1;
        }
        e += 1;
    }
    None
}

/// The architecture that a URL names, whatever the case of its letters.
pub fn find_architecture(url: &str) -> (r: Option<Architecture>)
    ensures
        r == architecture_in(lowercase_of(url@)),
{
    let lowercase = to_lowercase(url);
    find_architecture_in(lowercase.as_str())
}

/// The scope that a URL, already in ASCII lower case, names.
pub fn find_scope_in(lowercase_url: &[char]) -> (r: Option<Scope>)
    ensures
        r == scope_in(lowercase_url@),
{
    let user = chars_of("user");
    let machine = chars_of("machine");
    if find_first(lowercase_url, user.as_slice()).is_some() {
        Some(Scope::User)
    } else if find_first(lowercase_url, machine.as_slice()).is_some() {
        Some(Scope::Machine)
    } else {
        None
    }
}

/// The scope that a URL names, whatever the case of its ASCII letters.
pub fn find_scope(url: &str) -> (r: Option<Scope>)
    ensures
        r == scope_in(ascii_lowercase_of(url@)),
{
    let chars = chars_of(url);
    let lowercase = to_ascii_lowercase(chars.as_slice());
    find_scope_in(lowercase.as_slice())
}

/// The first word of the table whose last occurrence stands between two
/// delimiters decides: its architecture is the one that is found.
pub proof fn lemma_first_delimited_token_decides(url: Seq<char>, k: int)
    requires
        0 <= k < architecture_tokens().len(),
        is_delimited(url, architecture_tokens()[k].0),
        forall|j: int| 0 <= j < k ==> !is_delimited(url, #[trigger] architecture_tokens()[j].0),
    ensures
        architecture_in(url) == Some(architecture_tokens()[k].1),
{
    lemma_delimited_from(url, k, 0);
}

/// The same, for the search that starts at index `from`.
proof fn lemma_delimited_from(url: Seq<char>, k: int, from: int)
    requires
        0 <= from <= k < architecture_tokens().len(),
        is_delimited(url, architecture_tokens()[k].0),
        forall|j: int| from <= j < k ==> !is_delimited(url, #[trigger] architecture_tokens()[j].0),
    ensures
        delimited_architecture(url, from) == Some(architecture_tokens()[k].1),
    decreases k - from,
{
    if from < k {
        lemma_delimited_from(url, k, from + 1);
    }
}

/// Where no word stands between delimiters, the first extension and, for
/// it, the first word of the tables that stand together in the URL, the word
/// right before a dot and the extension, decide.
pub proof fn lemma_first_suffixed_token_decides(url: Seq<char>, e: int, k: int)
    requires
        0 <= e < valid_file_extensions().len(),
        0 <= k < architecture_tokens().len(),
        forall|j: int|
            0 <= j < architecture_tokens().len() ==> !is_delimited(
                url,
                #[trigger] architecture_tokens()[j].0,
            ),
        contains(url, with_extension(architecture_tokens()[k].0, valid_file_extensions()[e])),
        forall|d: int, j: int|
            0 <= d < valid_file_extensions().len() && 0 <= j < architecture_tokens().len() && (d
                < e || (d == e && j < k)) ==> !contains(
                url,
                with_extension(
                    #[trigger] architecture_tokens()[j].0,
                    #[trigger] valid_file_extensions()[d],
                ),
            ),
    ensures
        architecture_in(url) == Some(architecture_tokens()[k].1),
{
    lemma_no_delimited_from(url, 0);
    lemma_extension_from(url, e, k, 0);
}

/// Where no word stands between delimiters, the first rule finds nothing.
proof fn lemma_no_delimited_from(url: Seq<char>, from: int)
    requires
        0 <= from <= architecture_tokens().len(),
        forall|j: int|
            0 <= j < architecture_tokens().len() ==> !is_delimited(
                url,
                #[trigger] architecture_tokens()[j].0,
            ),
    ensures
        delimited_architecture(url, from) is None,
    decreases architecture_tokens().len() - from,
{
    if from < architecture_tokens().len() {
        lemma_no_delimited_from(url, from + 1);
    }
}

/// For one extension, the first word from `from` on that stands before it
/// decides; where none does, the extension yields nothing.
proof fn lemma_suffixed_from(url: Seq<char>, extension: Seq<char>, k: int, from: int)
    requires
        0 <= from <= k <= architecture_tokens().len(),
        forall|j: int|
            from <= j < k ==> !contains(
                url,
                with_extension(#[trigger] architecture_tokens()[j].0, extension),
            ),
    ensures
        k < architecture_tokens().len() && contains(
            url,
            with_extension(architecture_tokens()[k].0, extension),
        ) ==> suffixed_architecture(url, extension, from) == Some(architecture_tokens()[k].1),
        k == architecture_tokens().len() ==> suffixed_architecture(url, extension, from) is None,
    decreases k - from,
{
    if from < k {
        lemma_suffixed_from(url, extension, k, from + 1);
    }
}

/// The extensions before `e` yield nothing, and `e` yields the word `k`.
proof fn lemma_extension_from(url: Seq<char>, e: int, k: int, from: int)
    requires
        0 <= from <= e < valid_file_extensions().len(),
        0 <= k < architecture_tokens().len(),
        contains(url, with_extension(architecture_tokens()[k].0, valid_file_extensions()[e])),
        forall|d: int, j: int|
            0 <= d < valid_file_extensions().len() && 0 <= j < architecture_tokens().len() && (d
                < e || (d == e && j < k)) ==> !contains(
                url,
                with_extension(
                    #[trigger] architecture_tokens()[j].0,
                    #[trigger] valid_file_extensions()[d],
                ),
            ),
    ensures
        extension_architecture(url, from) == Some(architecture_tokens()[k].1),
    decreases e - from,
{
    if from < e {
        lemma_suffixed_from(
            url,
            valid_file_extensions()[from],
            architecture_tokens().len() as int,
            0,
        );
        lemma_extension_from(url, e, k, from + 1);
    } else {
        lemma_suffixed_from(url, valid_file_extensions()[e], k, 0);
    }
}

/// The case of the letters of a URL does not matter: two URLs that are the
/// same in lower case name the same architecture.  So do a URL and its
/// lower-case form, wherever lower-casing leaves that form as it is.
pub proof fn lemma_find_architecture_ignores_case(first: Seq<char>, second: Seq<char>)
    requires
        lowercase_of(first) == lowercase_of(second),
    ensures
        architecture_in(lowercase_of(first)) == architecture_in(lowercase_of(second)),
        lowercase_of(lowercase_of(first)) == lowercase_of(first) ==> architecture_in(
            lowercase_of(lowercase_of(first)),
        ) == architecture_in(lowercase_of(first)),
{
}

} // verus!
