//! Names and texts for the repository of package manifests.

use crate::text::{
    append_str, ascii_lower, chars_of, fitting_prefix, fitting_prefix_len, lemma_fitting_prefix,
    lemma_utf8_len_ascii, lemma_utf8_len_concat, string_of, to_ascii_lower, utf8_len,
};
use crate::types::guid::{lemma_simple_text, simple_text, Guid};
use crate::update_state::UpdateState;
use vstd::prelude::*;

verus! {

/// The longest name, in bytes, that a branch may have: a reference is held to
/// 255 bytes, of which `refs/heads/` takes 11.
pub const MAX_BRANCH_NAME_LEN: usize = 244;

/// `s` with every dot replaced by a slash.
pub open spec fn dots_to_slashes(s: Seq<char>) -> Seq<char> {
    Seq::new(s.len(), |i: int| if s[i] == '.' { '/' } else { s[i] })
}

/// The directory of a package: `manifests`, the first character of the
/// identifier in lower case, one directory for each part of the identifier
/// between its dots, and the version, if one is given.
pub open spec fn package_path(identifier: Seq<char>, version: Option<Seq<char>>) -> Seq<char> {
    let base = "manifests/"@.push(ascii_lower(identifier[0])).push('/') + dots_to_slashes(
        identifier,
    );
    match version {
        Some(v) => base.push('/') + v,
        None => base,
    }
}

/// The title of a commit: what is done, to which package, at which version.
pub open spec fn commit_title(
    identifier: Seq<char>,
    version: Seq<char>,
    update_state: UpdateState,
) -> Seq<char> {
    update_state.label() + ": "@ + identifier + " version "@ + version
}

/// The identifier, the version and the 32 digits of `uuid`, with hyphens
/// between them.
pub open spec fn full_branch_name(identifier: Seq<char>, version: Seq<char>, uuid: Guid) -> Seq<
    char,
> {
    identifier.push('-') + version.push('-') + simple_text(uuid.value, true)
}

/// The name of a branch.  Where the full name is longer than the limit, the
/// longest start of it that leaves room for the 32 digits is kept, and the
/// digits follow.
pub open spec fn branch_name(identifier: Seq<char>, version: Seq<char>, uuid: Guid) -> Seq<char> {
    let full = full_branch_name(identifier, version, uuid);
    if utf8_len(full) <= MAX_BRANCH_NAME_LEN {
        full
    } else {
        full.take(fitting_prefix_len(full, (MAX_BRANCH_NAME_LEN - 32) as nat) as int) + simple_text(
            uuid.value,
            true,
        )
    }
}

/// The fruits that may decorate the text of a pull request.
pub open spec fn fruits() -> Seq<Seq<char>> {
    seq![
        "apple"@,
        "banana"@,
        "blueberries"@,
        "cherries"@,
        "grapes"@,
        "green_apple"@,
        "kiwi_fruit"@,
        "lemon"@,
        "mango"@,
        "melon"@,
        "peach"@,
        "pear"@,
        "pineapple"@,
        "strawberry"@,
        "tangerine"@,
        "watermelon"@,
    ]
}

/// The tool that a pull request names as its author.
pub struct Tool {
    pub name: String,
    pub url: String,
    /// The version that follows the link; a tool named by its user has none.
    pub version: Option<String>,
}

impl Tool {
    /// The link to the tool, and its version where it has one.
    pub open spec fn text(&self) -> Seq<char> {
        let link = seq!['['] + self.name@ + "]("@ + self.url@ + seq![')'];
        match self.version {
            Some(v) => link + " v"@ + v@,
            None => link,
        }
    }
}

/// The emoji of a pull request: a rocket, or with a roll of zero the fruit
/// that was picked.
pub open spec fn emoji(roll: int, pick: int) -> Seq<char> {
    if roll == 0 {
        fruits()[pick]
    } else {
        "rocket"@
    }
}

/// The text of a pull request.
pub open spec fn pull_request_body(tool: &Tool, roll: int, pick: int) -> Seq<char> {
    "### Pull request has been created with "@ + tool.text() + " :"@ + emoji(roll, pick) + seq![
        ':',
    ]
}

/// The directory of a package in the repository.
pub fn get_package_path(identifier: &str, version: Option<&str>) -> (r: String)
    requires
        identifier@.len() > 0,
    ensures
        r@ == package_path(
            identifier@,
            match version {
                Some(v) => Some(v@),
                None => None,
            },
        ),
{
    let id = chars_of(identifier);
    let mut out: Vec<char> = Vec::new();
    append_str(&mut out, "manifests/");
    out.push(to_ascii_lower(id[0]));
    out.push('/');
    let ghost head = out@;
    let mut i: usize = 0;
    while i < id.len()
        invariant
            i <= id.len(),
            out@ == head + dots_to_slashes(id@).take(i as int),
        decreases id.len() - i,
    {
        out.push(if id[i] == '.' { '/' } else { id[i] });
        i += 1;
    }
    assert(dots_to_slashes(id@).take(id.len() as int) == dots_to_slashes(id@));
    if let Some(v) = version {
        out.push('/');
        append_str(&mut out, v);
    }
    string_of(out.as_slice())
}

/// The title of the commit that changes a package.
pub fn get_commit_title(identifier: &str, version: &str, update_state: &UpdateState) -> (r: String)
    ensures
        r@ == commit_title(identifier@, version@, *update_state),
{
    let mut out: Vec<char> = Vec::new();
    append_str(&mut out, update_state.as_str());
    append_str(&mut out, ": ");
    append_str(&mut out, identifier);
    append_str(&mut out, " version ");
    append_str(&mut out, version);
    string_of(out.as_slice())
}

/// A branch name never takes more bytes than the limit, and it ends with the
/// 32 digits of the identifier.
pub proof fn lemma_branch_name(identifier: Seq<char>, version: Seq<char>, uuid: Guid)
    ensures
        utf8_len(branch_name(identifier, version, uuid)) <= MAX_BRANCH_NAME_LEN,
        branch_name(identifier, version, uuid).len() >= 32,
        branch_name(identifier, version, uuid).skip(
            branch_name(identifier, version, uuid).len() - 32,
        ) == simple_text(uuid.value, true),
        utf8_len(full_branch_name(identifier, version, uuid)) <= MAX_BRANCH_NAME_LEN
            ==> branch_name(identifier, version, uuid) == full_branch_name(
            identifier,
            version,
            uuid,
        ),
{
    let digits = simple_text(uuid.value, true);
    let full = full_branch_name(identifier, version, uuid);
    lemma_simple_text(uuid.value, true);
    lemma_utf8_len_ascii(digits);
    if utf8_len(full) <= MAX_BRANCH_NAME_LEN {
        assert(full.skip(full.len() - 32) == digits);
    } else {
        let kept = full.take(fitting_prefix_len(full, (MAX_BRANCH_NAME_LEN - 32) as nat) as int);
        lemma_fitting_prefix(full, (MAX_BRANCH_NAME_LEN - 32) as nat);
        lemma_utf8_len_concat(kept, digits);
        assert((kept + digits).skip((kept + digits).len() - 32) == digits);
    }
}

/// The name of the branch for a package and a version, closed by the digits
/// of `uuid`.
pub fn branch_name_for(identifier: &str, version: &str, uuid: Guid) -> (r: String)
    ensures
        r@ == branch_name(identifier@, version@, uuid),
        utf8_len(r@) <= MAX_BRANCH_NAME_LEN,
{
    let digits = uuid.to_simple_upper();
    let mut full: Vec<char> = Vec::new();
    append_str(&mut full, identifier);
    full.push('-');
    append_str(&mut full, version);
    full.push('-');
    append_str(&mut full, digits.as_str());
    assert(full@ == full_branch_name(identifier@, version@, uuid));
    proof {
        lemma_fitting_prefix(full@, MAX_BRANCH_NAME_LEN as nat);
        lemma_branch_name(identifier@, version@, uuid);
    }
    if fitting_prefix(full.as_slice(), MAX_BRANCH_NAME_LEN) == full.len() {
        string_of(full.as_slice())
    } else {
        let keep = fitting_prefix(full.as_slice(), MAX_BRANCH_NAME_LEN - 32);
        let mut out: Vec<char> = Vec::new();
        let mut i: usize = 0;
        while i < keep
            invariant
                i <= keep <= full.len(),
                out@ == full@.take(i as int),
            decreases keep - i,
        {
            out.push(full[i]);
            i += 1;
        }
        append_str(&mut out, digits.as_str());
        string_of(out.as_slice())
    }
}

/// The name of a new branch for a package and a version: it is closed by the
/// digits of a fresh random identifier.
pub fn get_branch_name(identifier: &str, version: &str) -> (r: String)
    ensures
        exists|uuid: Guid| uuid.is_random() && r@ == branch_name(identifier@, version@, uuid),
        utf8_len(r@) <= MAX_BRANCH_NAME_LEN,
{
    let uuid = Guid::random();
    branch_name_for(identifier, version, uuid)
}

/// The fruit at index `i` of the table.
pub fn fruit(i: usize) -> (r: &'static str)
    requires
        i < 16,
    ensures
        r@ == fruits()[i as int],
{
    match i {
        0 => "apple",
        1 => "banana",
        2 => "blueberries",
        3 => "cherries",
        4 => "grapes",
        5 => "green_apple",
        6 => "kiwi_fruit",
        7 => "lemon",
        8 => "mango",
        9 => "melon",
        10 => "peach",
        11 => "pear",
        12 => "pineapple",
        13 => "strawberry",
        14 => "tangerine",
        _ => "watermelon",
    }
}

/// The text of a pull request for a given roll and a given pick.
pub fn pull_request_body_for(tool: &Tool, roll: usize, pick: usize) -> (r: String)
    requires
        pick < 16,
    ensures
        r@ == pull_request_body(tool, roll as int, pick as int),
{
    let mut out: Vec<char> = Vec::new();
    append_str(&mut out, "### Pull request has been created with ");
    out.push('[');
    append_str(&mut out, tool.name.as_str());
    append_str(&mut out, "](");
    append_str(&mut out, tool.url.as_str());
    out.push(')');
    if let Some(v) = &tool.version {
        append_str(&mut out, " v");
        append_str(&mut out, v.as_str());
    }
    append_str(&mut out, " :");
    append_str(&mut out, if roll == 0 { fruit(pick) } else { "rocket" });
    out.push(':');
    string_of(out.as_slice())
}

/// Calls `rand::Rng::gen_range` on the thread's generator with the range
/// from zero up to, and without, `bound`.  The value is random; the contract
/// states the range.
#[verifier::external_body]
fn random_below(bound: usize) -> (r: usize)
    requires
        bound > 0,
    ensures
        r < bound,
{
    rand::Rng::gen_range(&mut rand::thread_rng(), 0..bound)
}

/// The text of a pull request: one time in fifty a fruit, drawn at random,
/// stands in place of the rocket.
pub fn get_pull_request_body(tool: &Tool) -> (r: String)
    ensures
        exists|roll: int, pick: int|
            0 <= roll < 50 && 0 <= pick < 16 && r@ == pull_request_body(tool, roll, pick),
{
    let roll = random_below(50);
    let pick = if roll == 0 { random_below(16) } else { 0 };
    pull_request_body_for(tool, roll, pick)
}

} // verus!
