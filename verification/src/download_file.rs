//! What the download of an installer yields besides its bytes: the digest of
//! the bytes, a file name, and the date of the last change.

use crate::text::{
    after_last, chars_of, contains, find_first, first_index, first_index_of, first_occurrence,
    lowercase_of, matches_at, occurs_at, piece, same_text, string_of, strip, stripped, tail_after,
    trailing, Strip,
};
use crate::file_analyser::FileAnalyser;
use crate::types::guid::{hex_digit, hyphenated_text, Guid};
use crate::url_utils::{architecture_in, find_architecture};
use vstd::prelude::*;

verus! {

/// A day of the calendar.
#[derive(Clone, Copy, Debug, PartialEq, Eq, Hash, Structural)]
pub struct Date {
    pub year: i32,
    pub month: u8,
    pub day: u8,
}

/// The state of a SHA-256 computation: it holds a `sha2::Sha256`, whose
/// generic type Verus cannot be told about.
#[verifier::external_body]
pub struct Sha256State {
    inner: sha2::Sha256,
}

/// The bytes that were fed into a SHA-256 computation so far, in order.
pub uninterp spec fn hashed(state: Sha256State) -> Seq<u8>;

/// The SHA-256 digest of a sequence of bytes, as `sha2::Sha256` computes it.
pub uninterp spec fn sha256_of(bytes: Seq<u8>) -> Seq<u8>;

/// The date of a timestamp in the format of RFC 2822, as `time` reads it;
/// none where `time` rejects the text.
pub uninterp spec fn rfc2822_date_of(text: Seq<char>) -> Option<Date>;

/// The digits of `bytes` in base 16, two for each byte, with capitals.
pub open spec fn upper_hex(bytes: Seq<u8>) -> Seq<char> {
    Seq::new(
        2 * bytes.len(),
        |i: int|
            if i % 2 == 0 {
                hex_digit(bytes[i / 2] as int / 16, true)
            } else {
                hex_digit(bytes[i / 2] as int % 16, true)
            },
    )
}

/// Calls `sha2::Digest::new` for `sha2::Sha256`: a computation that has been
/// fed nothing.
#[verifier::external_body]
fn sha256_new() -> (r: Sha256State)
    ensures
        hashed(r) == Seq::<u8>::empty(),
{
    Sha256State { inner: sha2::Digest::new() }
}

/// Calls `sha2::Digest::update`: the bytes are fed after those fed before.
/// The call returns for every input.
#[verifier::external_body]
fn sha256_update(state: &mut Sha256State, data: &[u8])
    ensures
        hashed(*final(state)) == hashed(*old(state)) + data@,
    no_unwind
{
    sha2::Digest::update(&mut state.inner, data)
}

/// Calls `sha2::Digest::finalize`: the digest of all the bytes that were
/// fed, which for SHA-256 has 32 bytes.  The contract gives the digest a
/// name.
#[verifier::external_body]
fn sha256_finalize(state: Sha256State) -> (r: Vec<u8>)
    ensures
        r@ == sha256_of(hashed(state)),
        r@.len() == 32,
{
    sha2::Digest::finalize(state.inner).to_vec()
}

/// Calls `base16ct::upper::encode_string`: two digits in base 16 for each
/// byte, the high four bits first, with capitals.
#[verifier::external_body]
fn encode_upper_hex(bytes: &[u8]) -> (r: String)
    ensures
        r@ == upper_hex(bytes@),
{
    base16ct::upper::encode_string(bytes)
}

/// Calls `time::OffsetDateTime::parse` with the format of RFC 2822 and takes
/// the date of the result.  The contract gives the result a name.
#[verifier::external_body]
fn parse_rfc2822_date(text: &str) -> (r: Option<Date>)
    ensures
        r == rfc2822_date_of(text@),
{
    let format = time::format_description::well_known::Rfc2822;
    let date = time::OffsetDateTime::parse(text, &format).ok()?.date();
    Some(Date { year: date.year(), month: u8::from(date.month()), day: date.day() })
}

/// The progress of one download: the digest of the bytes that arrived, and
/// how far the transfer has come of the total that the server declared.
pub struct Download {
    state: Sha256State,
    position: u64,
    total: u64,
}

impl Download {
    /// The bytes that have arrived so far, in order.
    pub closed spec fn received(&self) -> Seq<u8> {
        hashed(self.state)
    }

    /// How far the transfer has come: never beyond the total.
    pub closed spec fn progress(&self) -> u64 {
        self.position
    }

    /// The size that the server declared.
    pub closed spec fn size(&self) -> u64 {
        self.total
    }

    /// The position never passes the total.
    #[verifier::type_invariant]
    spec fn well_formed(&self) -> bool {
        self.position <= self.total
    }

    /// A download of `total` bytes of which nothing has arrived.
    pub fn new(total: u64) -> (r: Download)
        ensures
            r.received() == Seq::<u8>::empty(),
            r.progress() == 0,
            r.size() == total,
    {
        Download { state: sha256_new(), position: 0, total }
    }

    /// Takes the next chunk of the response into the digest and moves the
    /// position on by its length, though never beyond the total.  Returns
    /// the new position.
    pub fn update(&mut self, chunk: &[u8]) -> (r: u64)
        ensures
            final(self).received() == old(self).received() + chunk@,
            final(self).size() == old(self).size(),
            r == final(self).progress(),
            r == if old(self).progress() + chunk@.len() <= old(self).size() {
                (old(self).progress() + chunk@.len()) as u64
            } else {
                old(self).size()
            },
            old(self).progress() <= r,
            r <= old(self).size(),
    {
        proof {
            use_type_invariant(&*self);
        }
        sha256_update(&mut self.state, chunk);
        let room: u64 = self.total - self.position;
        if chunk.len() as u64 >= room {
            self.position = self.total;
        } else {
            self.position = self.position + chunk.len() as u64;
        }
        self.position
    }

    /// The position of the transfer.
    pub fn position(&self) -> (r: u64)
        ensures
            r == self.progress(),
    {
        self.position
    }

    /// Ends the download: the SHA-256 digest of all the bytes that arrived,
    /// as 64 digits in base 16 with capitals.
    pub fn finish(self) -> (r: String)
        ensures
            r@ == upper_hex(sha256_of(self.received())),
            r@.len() == 64,
    {
        let digest = sha256_finalize(self.state);
        encode_upper_hex(digest.as_slice())
    }
}

/// The date of the last change that a response declares: the date of its
/// `Last-Modified` header in the format of RFC 2822.  A response without the
/// header, or with one that cannot be read, declares none.
pub fn last_modified(header: Option<&str>) -> (r: Option<Date>)
    ensures
        r == match header {
            Some(text) => rfc2822_date_of(text@),
            None => None,
        },
{
    match header {
        Some(text) => parse_rfc2822_date(text),
        None => None,
    }
}

/// `urls` without the repetitions: each URL stays where it stands first.
pub open spec fn unique(urls: Seq<Seq<char>>) -> Seq<Seq<char>>
    decreases urls.len(),
{
    if urls.len() == 0 {
        Seq::empty()
    } else if unique(urls.drop_last()).contains(urls.last()) {
        unique(urls.drop_last())
    } else {
        unique(urls.drop_last()).push(urls.last())
    }
}

/// What each of `urls` spells.
pub open spec fn texts(urls: Seq<String>) -> Seq<Seq<char>> {
    urls.map_values(|url: String| url@)
}

/// Nothing stands twice among the unique URLs, and they are the URLs that
/// were given.
pub proof fn lemma_unique(urls: Seq<Seq<char>>)
    ensures
        unique(urls).no_duplicates(),
        forall|url: Seq<char>| #[trigger] unique(urls).contains(url) ==> urls.contains(url),
        forall|url: Seq<char>| #[trigger] urls.contains(url) ==> unique(urls).contains(url),
    decreases urls.len(),
{
    if urls.len() > 0 {
        let init = urls.drop_last();
        lemma_unique(init);
        assert forall|url: Seq<char>|
            (#[trigger] unique(urls).contains(url) ==> urls.contains(url)) && (
            #[trigger] urls.contains(url) ==> unique(urls).contains(url)) by {
            if urls.contains(url) {
                let i = choose|i: int| 0 <= i < urls.len() && urls[i] == url;
                if i < urls.len() - 1 {
                    assert(init[i] == url);
                    assert(init.contains(url));
                    assert(unique(init).contains(url));
                    let j = choose|j: int| 0 <= j < unique(init).len() && unique(init)[j] == url;
                    assert(unique(urls)[j] == url);
                } else if !unique(init).contains(urls.last()) {
                    assert(unique(urls)[unique(init).len() as int] == url);
                }
            }
            if unique(urls).contains(url) {
                let j = choose|j: int| 0 <= j < unique(urls).len() && unique(urls)[j] == url;
                if j < unique(init).len() {
                    assert(unique(init)[j] == url);
                    assert(unique(init).contains(url));
                    let i = choose|i: int| 0 <= i < init.len() && init[i] == url;
                    assert(urls[i] == url);
                } else {
                    assert(urls[urls.len() - 1] == url);
                }
            }
        }
    }
}

/// The URLs that are to be fetched: those of the list without the ones
/// that stand in it a second time.  Two URLs are the same when they are
/// spelt the same.
pub fn download_urls(urls: Vec<String>) -> (r: Vec<String>)
    ensures
        texts(r@) == unique(texts(urls@)),
{
    let mut out: Vec<String> = Vec::new();
    let mut i: usize = 0;
    assert(texts(urls@).take(0) == Seq::<Seq<char>>::empty());
    assert(texts(out@) == Seq::<Seq<char>>::empty());
    while i < urls.len()
        invariant
            i <= urls.len(),
            texts(out@) == unique(texts(urls@).take(i as int)),
        decreases urls.len() - i,
    {
        let mut seen = false;
        let mut j: usize = 0;
        while j < out.len()
            invariant
                j <= out.len(),
                i < urls.len(),
                seen == texts(out@).take(j as int).contains(urls@[i as int]@),
            decreases out.len() - j,
        {
            let same = same_text(out[j].as_str(), urls[i].as_str());
            proof {
                let before = texts(out@).take(j as int);
                let after = texts(out@).take(j + 1);
                assert(after == before.push(out@[j as int]@));
                if same {
                    assert(after[j as int] == urls@[i as int]@);
                }
                if before.contains(urls@[i as int]@) {
                    let k = choose|k: int| 0 <= k < before.len() && before[k] == urls@[i as int]@;
                    assert(after[k] == urls@[i as int]@);
                }
                if after.contains(urls@[i as int]@) && !same {
                    let k = choose|k: int| 0 <= k < after.len() && after[k] == urls@[i as int]@;
                    assert(before[k] == urls@[i as int]@);
                }
            }
            seen = seen || same;
            j += 1;
        }
        proof {
            assert(texts(out@).take(out.len() as int) == texts(out@));
            assert(texts(urls@).take(i + 1).drop_last() == texts(urls@).take(i as int));
            assert(texts(urls@).take(i + 1).last() == urls@[i as int]@);
        }
        if !seen {
            let url = urls[i].clone();
            assert(texts(out@.push(url)) == texts(out@).push(url@));
            out.push(url);
        }
        i += 1;
    }
    assert(texts(urls@).take(urls.len() as int) == texts(urls@));
    out
}

/// What a finished download leaves besides the file itself.
pub struct DownloadedFile {
    pub url: String,
    /// The SHA-256 digest of the file, as 64 digits in base 16 with capitals.
    pub sha_256: String,
    pub file_name: String,
    pub last_modified: Option<Date>,
}

/// The description of a downloaded artifact: what the analysis of the file
/// found, with the digest and the date of the download, and with the
/// architecture that the URL names where it names one.
pub open spec fn processed(file: DownloadedFile, analysed: FileAnalyser) -> FileAnalyser {
    FileAnalyser {
        architecture: match architecture_in(lowercase_of(file.url@)) {
            Some(architecture) => architecture,
            None => analysed.architecture,
        },
        installer_sha_256: file.sha_256,
        last_modified: file.last_modified,
        ..analysed
    }
}

/// Completes the description of a downloaded artifact.
pub fn process_file(file: DownloadedFile, analysed: FileAnalyser) -> (r: FileAnalyser)
    ensures
        r == processed(file, analysed),
{
    let mut analysed = analysed;
    match find_architecture(file.url.as_str()) {
        Some(architecture) => {
            analysed.architecture = architecture;
        },
        None => {},
    }
    analysed.installer_sha_256 = file.sha_256;
    analysed.last_modified = file.last_modified;
    analysed
}

/// The URL of each download with the description of its artifact.
pub open spec fn all_processed(files: Seq<(DownloadedFile, FileAnalyser)>) -> Seq<
    (String, FileAnalyser),
> {
    files.map_values(|pair: (DownloadedFile, FileAnalyser)| (pair.0.url, processed(pair.0, pair.1)))
}

/// Completes the descriptions of the downloaded artifacts, and gives each
/// the URL that it came from.
pub fn process_files(files: Vec<(DownloadedFile, FileAnalyser)>) -> (r: Vec<(String, FileAnalyser)>)
    ensures
        r@ == all_processed(files@),
{
    let mut files = files;
    let ghost all = files@;
    let mut out: Vec<(String, FileAnalyser)> = Vec::new();
    while files.len() > 0
        invariant
            out.len() + files.len() == all.len(),
            out@ == all_processed(all.take(out.len() as int)),
            files@ == all.skip(out.len() as int),
        decreases files.len(),
    {
        let ghost done = out.len() as int;
        let (file, analysed) = files.remove(0);
        assert(file == all[done].0 && analysed == all[done].1);
        let url = file.url.clone();
        out.push((url, process_file(file, analysed)));
        assert(all.take(done + 1) == all.take(done).push(all[done]));
        assert(out@ == all_processed(all.take(done + 1)));
        assert(files@ == all.skip(done + 1));
    }
    assert(all.take(all.len() as int) == all);
    out
}

/// The file name that one parameter of a `Content-Disposition` header
/// gives: the value of a parameter whose key starts with `filename`, without
/// the blanks and the double quotes around it.
pub open spec fn parameter_file_name(section: Seq<char>) -> Option<Seq<char>> {
    let equals = first_index_of(section, '=') as int;
    if equals >= section.len() {
        None
    } else if occurs_at(strip(section.take(equals), Strip::Spaces), "filename"@, 0) {
        Some(strip(strip(section.skip(equals + 1), Strip::Spaces), Strip::Quotes))
    } else {
        None
    }
}

/// The file name that the first of the parameters in `rest` gives that
/// gives one; the parameters are parted by semicolons.
pub open spec fn parameters_file_name(rest: Seq<char>) -> Option<Seq<char>>
    decreases rest.len(),
{
    let end = first_index_of(rest, ';') as int;
    match parameter_file_name(rest.take(end)) {
        Some(name) => Some(name),
        None => if end >= rest.len() {
            None
        } else {
            parameters_file_name(rest.skip(end + 1))
        },
    }
}

/// The file name that a `Content-Disposition` header gives: what stands
/// before the first semicolon says how the content is to be shown, and the
/// parameters follow it.
pub open spec fn disposition_file_name(header: Seq<char>) -> Option<Seq<char>> {
    let end = first_index_of(header, ';') as int;
    if end >= header.len() {
        None
    } else {
        parameters_file_name(header.skip(end + 1))
    }
}

/// The path of a URL: what follows the host, up to the query or the
/// fragment.  A text without `://` is taken as a path.
pub open spec fn url_path(url: Seq<char>) -> Seq<char> {
    let fragment = first_index_of(url, '#');
    let query = first_index_of(url, '?');
    let plain = url.take(if fragment <= query { fragment as int } else { query as int });
    if contains(plain, "://"@) {
        let after = plain.skip(choose|i: int| first_occurrence(plain, "://"@, i)).skip(3);
        after.skip(first_index_of(after, '/') as int)
    } else {
        plain
    }
}

/// The last part of the path of a URL that is not empty, the parts being
/// parted by slashes.
pub open spec fn url_file_name(url: Seq<char>) -> Option<Seq<char>> {
    let path = url_path(url);
    let name = after_last(path.take(path.len() - trailing(path, Strip::Slashes)), '/');
    if name.len() == 0 {
        None
    } else {
        Some(name)
    }
}

/// The name under which a download is kept: the one that the
/// `Content-Disposition` header gives, else the last part of the path of the
/// URL, else the digits of `fallback` with their hyphens.  An empty name
/// counts as none.
pub open spec fn file_name(
    url: Seq<char>,
    content_disposition: Option<Seq<char>>,
    fallback: Guid,
) -> Seq<char> {
    let given = match content_disposition {
        Some(header) => disposition_file_name(header),
        None => None,
    };
    if given is Some && given->0.len() > 0 {
        given->0
    } else if url_file_name(url) is Some {
        url_file_name(url)->0
    } else {
        hyphenated_text(fallback.value, false)
    }
}

/// The file name that one parameter of a `Content-Disposition` header
/// gives.
pub fn parameter_name(section: &[char]) -> (r: Option<Vec<char>>)
    ensures
        match r {
            Some(name) => parameter_file_name(section@) == Some(name@),
            None => parameter_file_name(section@) is None,
        },
{
    let equals = first_index(section, '=');
    if equals >= section.len() {
        return None;
    }
    let key = stripped(piece(section, 0, equals).as_slice(), Strip::Spaces);
    let word = chars_of("filename");
    if !matches_at(key.as_slice(), word.as_slice(), 0) {
        return None;
    }
    let value = stripped(piece(section, equals + 1, section.len()).as_slice(), Strip::Spaces);
    Some(stripped(value.as_slice(), Strip::Quotes))
}

/// The file name that a `Content-Disposition` header gives.
pub fn disposition_name(header: &[char]) -> (r: Option<Vec<char>>)
    ensures
        match r {
            Some(name) => disposition_file_name(header@) == Some(name@),
            None => disposition_file_name(header@) is None,
        },
{
    let first = first_index(header, ';');
    if first >= header.len() {
        return None;
    }
    let mut start: usize = first + 1;
    loop
        invariant
            start <= header.len(),
            disposition_file_name(header@) == parameters_file_name(header@.skip(start as int)),
        decreases header.len() - start,
    {
        let rest = piece(header, start, header.len());
        let end = first_index(rest.as_slice(), ';');
        match parameter_name(piece(rest.as_slice(), 0, end).as_slice()) {
            Some(name) => {
                return Some(name);
            },
            None => {},
        }
        if end >= rest.len() {
            return None;
        }
        assert(rest@.skip(end + 1) == header@.skip(start + end + 1));
        start = start + end + 1;
    }
}

/// The last part of the path of a URL that is not empty.
pub fn url_name(url: &[char]) -> (r: Option<Vec<char>>)
    ensures
        match r {
            Some(name) => url_file_name(url@) == Some(name@),
            None => url_file_name(url@) is None,
        },
{
    let fragment = first_index(url, '#');
    let query = first_index(url, '?');
    let plain = piece(url, 0, if fragment <= query { fragment } else { query });
    let mark = chars_of("://");
    proof {
        reveal_strlit("://");
    }
    let path = match find_first(plain.as_slice(), mark.as_slice()) {
        Some(i) => {
            assert(contains(plain@, "://"@));
            assert(forall|k: int| first_occurrence(plain@, "://"@, k) ==> k == i);
            let after = piece(plain.as_slice(), i + 3, plain.len());
            assert(after@ == plain@.skip(i as int).skip(3));
            let slash = first_index(after.as_slice(), '/');
            piece(after.as_slice(), slash, after.len())
        },
        None => plain,
    };
    let mut end: usize = path.len();
    assert(path@.take(path.len() as int) == path@);
    while end > 0 && path[end - 1] == '/'
        invariant
            end <= path.len(),
            trailing(path@, Strip::Slashes) == (path.len() - end) + trailing(
                path@.take(end as int),
                Strip::Slashes,
            ),
        decreases end,
    {
        assert(path@.take(end as int).last() == path@[end - 1]);
        assert(path@.take(end as int).drop_last() == path@.take(end - 1));
        end -= 1;
    }
    assert(trailing(path@.take(end as int), Strip::Slashes) == 0) by {
        if end > 0 {
            assert(path@.take(end as int).last() == path@[end - 1]);
        }
    }
    let name = tail_after(piece(path.as_slice(), 0, end).as_slice(), '/');
    if name.len() == 0 {
        None
    } else {
        Some(name)
    }
}

/// The name under which a download is kept, with `fallback` to name it
/// where neither the header nor the URL does.
pub fn file_name_for(url: &str, content_disposition: Option<&str>, fallback: Guid) -> (r: String)
    ensures
        r@ == file_name(
            url@,
            match content_disposition {
                Some(header) => Some(header@),
                None => None,
            },
            fallback,
        ),
        r@.len() > 0,
{
    let given = match content_disposition {
        Some(header) => disposition_name(chars_of(header).as_slice()),
        None => None,
    };
    match given {
        Some(name) => {
            if name.len() > 0 {
                return string_of(name.as_slice());
            }
        },
        None => {},
    }
    match url_name(chars_of(url).as_slice()) {
        Some(name) => string_of(name.as_slice()),
        None => fallback.to_hyphenated(),
    }
}

/// The name under which a download is kept.  Where neither the header nor
/// the URL names it, a fresh random identifier does.
pub fn get_file_name(url: &str, content_disposition: Option<&str>) -> (r: String)
    ensures
        exists|fallback: Guid|
            fallback.is_random() && r@ == file_name(
                url@,
                match content_disposition {
                    Some(header) => Some(header@),
                    None => None,
                },
                fallback,
            ),
        r@.len() > 0,
{
    let fallback = Guid::random();
    file_name_for(url, content_disposition, fallback)
}

} // verus!
