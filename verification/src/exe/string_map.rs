use crate::exe::utils::{encode_utf16, same_units, utf16_of};
use crate::exe::vs_version_info::{
    child_views, first_string_file_info, first_string_table, VSChild, VSVersionInfo,
    VSVersionInfoView,
};
use crate::text::{from_utf16_lossy, utf16_lossy_of};
use crate::exe::vs_string::{VSString, VSStringView};
use crate::exe::vs_string_table::string_views;
use vstd::prelude::*;

verus! {

/// The texts of a table by their keys.  A record with an empty key gives no
/// entry; of two records with one key the later one stays.
pub open spec fn string_map_of(strings: Seq<VSStringView>) -> Map<Seq<u16>, Seq<u16>>
    decreases strings.len(),
{
    if strings.len() == 0 {
        Map::empty()
    } else if strings.last().header.key.len() == 0 {
        string_map_of(strings.drop_last())
    } else {
        string_map_of(strings.drop_last()).insert(strings.last().header.key, strings.last().value)
    }
}

/// No key of the texts of a table is empty.
pub proof fn lemma_string_map_keys(strings: Seq<VSStringView>)
    ensures
        forall|key: Seq<u16>| #[trigger]
            string_map_of(strings).contains_key(key) ==> key.len() > 0,
        string_map_of(strings).dom().finite(),
    decreases strings.len(),
{
    if strings.len() > 0 {
        lemma_string_map_keys(strings.drop_last());
    }
}

/// The texts of the version information by their keys: those of its first
/// table of texts.
pub open spec fn strings_of(info: VSVersionInfoView) -> Option<Map<Seq<u16>, Seq<u16>>> {
    match first_string_table(info) {
        Some(table) => Some(string_map_of(table.children)),
        None => None,
    }
}

/// The text that stands under the key that `name` spells, as a string.
pub open spec fn text_under(strings: Map<Seq<u16>, Seq<u16>>, name: Seq<char>) -> Option<
    Seq<char>,
> {
    if strings.contains_key(utf16_of(name)) {
        Some(utf16_lossy_of(strings[utf16_of(name)]))
    } else {
        None
    }
}

/// A mapping from keys to texts, both in UTF-16.
pub struct StringMap {
    strings: Vec<VSString>,
}

impl View for StringMap {
    type V = Map<Seq<u16>, Seq<u16>>;

    closed spec fn view(&self) -> Map<Seq<u16>, Seq<u16>> {
        string_map_of(string_views(self.strings@))
    }
}

impl StringMap {
    /// The texts of a table by their keys.
    pub fn new(strings: Vec<VSString>) -> (r: StringMap)
        ensures
            r@ == string_map_of(string_views(strings@)),
    {
        StringMap { strings }
    }

    /// The texts of the version information by their keys.
    pub fn of(info: VSVersionInfo) -> (r: Option<StringMap>)
        ensures
            match r {
                Some(strings) => strings_of(info@) == Some(strings@),
                None => strings_of(info@) is None,
            },
    {
        let mut children = info.children;
        let ghost all = info@.children;
        let mut i: usize = 0;
        assert(all.skip(0) == all);
        while i < children.len() && !children[i].is_strings()
            invariant
                i <= children.len(),
                all == child_views(children@),
                first_string_file_info(all) == first_string_file_info(all.skip(i as int)),
            decreases children.len() - i,
        {
            assert(all.skip(i as int)[0] == children@[i as int]@);
            assert(all.skip(i as int).drop_first() == all.skip(i + 1));
            i += 1;
        }
        if i >= children.len() {
            return None;
        }
        assert(all.skip(i as int)[0] == children@[i as int]@);
        match children.swap_remove(i) {
            VSChild::StringFileInfo(strings) => {
                assert(first_string_file_info(all) == Some(strings@));
                let mut tables = strings.children;
                if tables.len() == 0 {
                    None
                } else {
                    assert(strings@.children[0] == tables@[0]@);
                    let table = tables.swap_remove(0);
                    Some(StringMap::new(table.children))
                }
            },
            VSChild::VarFileInfo(_) => None,
        }
    }

    /// The text that stands under the key that `name` spells, as a string.
    pub fn text(&self, name: &str) -> (r: Option<String>)
        ensures
            match r {
                Some(text) => text_under(self@, name@) == Some(text@),
                None => text_under(self@, name@) is None,
            },
    {
        let key = encode_utf16(name);
        match self.get(key.as_slice()) {
            Some(units) => Some(from_utf16_lossy(units.as_slice())),
            None => None,
        }
    }

    /// The text that stands under `key`.
    pub fn get(&self, key: &[u16]) -> (r: Option<&Vec<u16>>)
        ensures
            match r {
                Some(text) => self@.contains_key(key@) && self@[key@] == text@,
                None => !self@.contains_key(key@),
            },
    {
        if key.len() == 0 {
            proof {
                lemma_string_map_keys(string_views(self.strings@));
            }
            return None;
        }
        let ghost all = string_views(self.strings@);
        let mut i: usize = self.strings.len();
        assert(all.take(i as int) == all);
        while i > 0
            invariant
                i <= self.strings.len(),
                key@.len() > 0,
                all == string_views(self.strings@),
                string_map_of(all).contains_key(key@) == string_map_of(
                    all.take(i as int),
                ).contains_key(key@),
                string_map_of(all).contains_key(key@) ==> string_map_of(all)[key@] == string_map_of(
                    all.take(i as int),
                )[key@],
            decreases i,
        {
            i -= 1;
            assert(all.take(i + 1).drop_last() == all.take(i as int));
            assert(all.take(i + 1).last() == self.strings@[i as int]@);
            if same_units(self.strings[i].header.key.as_slice(), key) {
                return Some(&self.strings[i].value);
            }
        }
        None
    }
}

} // verus!
