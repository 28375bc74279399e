//! Helpers that the actions share.

use crate::deps::{
    is_uuid_v4_text, md5_hex, md5_hex_of, pairs_view, random_uuid, regex_two_groups, two_groups,
};
use crate::text::{ascii_lower, find_last_slash, joined, last_slash, lower_equals};
use vstd::prelude::*;

verus! {

/// The queue name in a queue URL: what follows the last `/`, if the URL has
/// a `/` and something follows the last one.
pub open spec fn queue_name_of(url: Seq<char>) -> Option<Seq<char>> {
    match last_slash(url) {
        Some(i) => if i + 1 < url.len() {
            Some(url.skip(i + 1))
        } else {
            None
        },
        None => None,
    }
}

/// The URL of a queue: the host name, a `/`, the queue name.
pub open spec fn queue_url_of(host: Seq<char>, name: Seq<char>) -> Seq<char> {
    host + seq!['/'] + name
}

/// The queue name in a queue URL, as `queue_name_of` defines it.
pub fn extract_queue_name_from_url(url: &str) -> (r: Option<String>)
    ensures
        match r {
            Some(name) => queue_name_of(url@) == Some(name@),
            None => queue_name_of(url@) is None,
        },
{
    match find_last_slash(url) {
        Some(i) => {
            let n = url.unicode_len();
            if i + 1 < n {
                let name = url.substring_char(i + 1, n);
                assert(url@.subrange(i + 1, n as int) =~= url@.skip(i + 1));
                Some(name.to_owned())
            } else {
                None
            }
        },
        None => None,
    }
}

/// The URL of the queue `name` on the host `host`.
pub fn queue_url(host: &str, name: &str) -> (r: String)
    ensures
        r@ == queue_url_of(host@, name@),
{
    proof {
        reveal_strlit("/");
    }
    let mut r = joined(host, "/");
    r.append(name);
    assert("/"@ =~= seq!['/']);
    r
}

/// The MD5 digest of the body's UTF-8 bytes in lower-case hexadecimal.
pub fn compute_md5(body: &str) -> (r: String)
    ensures
        r@ == md5_hex(body@),
{
    md5_hex_of(body)
}

/// A new random version-4 UUID in its hyphenated lower-case form.
pub fn generate_random_uuid4() -> (r: String)
    ensures
        is_uuid_v4_text(r@),
{
    random_uuid()
}

/// One indexed entry of a form: the value under a name like
/// `Attribute.3.Name`, with the index `3` and the field `Name` taken apart.
#[derive(Debug)]
pub struct ParamValues {
    pub index: String,
    pub field: String,
    pub value: String,
}

pub ghost struct ParamValuesView {
    pub index: Seq<char>,
    pub field: Seq<char>,
    pub value: Seq<char>,
}

impl View for ParamValues {
    type V = ParamValuesView;

    open spec fn view(&self) -> ParamValuesView {
        ParamValuesView { index: self.index@, field: self.field@, value: self.value@ }
    }
}

/// The views of the entries that a vector holds, in order.
pub open spec fn entry_views(v: Seq<ParamValues>) -> Seq<ParamValuesView> {
    Seq::new(v.len(), |i: int| v[i]@)
}

/// The pattern for the names of indexed attributes. It is matched without
/// regard to case; its first group is the index, its second the field.
pub const ATTRIBUTE_PATTERN: &'static str = r"^Attribute\.(\d+)\.(.+)$";

/// The pattern for the names of indexed tags.
pub const TAG_PATTERN: &'static str = r"^Tag\.(\d+)\.(.+)$";

/// The indexed entries among the pairs of a form, in the order of the
/// form: a pair is one if `pattern` matches its name, and the two groups
/// of the match are its index and its field.
pub open spec fn extracted(pattern: Seq<char>, fields: Seq<(Seq<char>, Seq<char>)>) -> Seq<
    ParamValuesView,
>
    decreases fields.len(),
{
    if fields.len() == 0 {
        Seq::empty()
    } else {
        let rest = extracted(pattern, fields.drop_last());
        match regex_two_groups(pattern, true, fields.last().0) {
            Some((index, field)) => rest.push(
                ParamValuesView { index, field, value: fields.last().1 },
            ),
            None => rest,
        }
    }
}

/// Picks the indexed entries out of the pairs of a form.
pub fn extract_from_extra(pattern: &str, extra: &Vec<(String, String)>) -> (r: Vec<ParamValues>)
    ensures
        entry_views(r@) == extracted(pattern@, pairs_view(extra@)),
{
    let ghost fields = pairs_view(extra@);
    let mut r: Vec<ParamValues> = Vec::new();
    let n = extra.len();
    let mut i: usize = 0;
    assert(fields.take(0) =~= Seq::empty());
    assert(entry_views(r@) =~= Seq::empty());
    while i < n
        invariant
            n == extra.len(),
            fields == pairs_view(extra@),
            i <= n,
            entry_views(r@) == extracted(pattern@, fields.take(i as int)),
        decreases n - i,
    {
        assert(fields.take(i + 1).drop_last() =~= fields.take(i as int));
        assert(fields.take(i + 1).last() == fields[i as int]);
        let ghost before = entry_views(r@);
        match two_groups(pattern, true, extra[i].0.as_str()) {
            Some((index, field)) => {
                let entry = ParamValues { index, field, value: extra[i].1.clone() };
                r.push(entry);
                assert(entry_views(r@) =~= before.push(entry@));
            },
            None => {},
        }
        i = i + 1;
    }
    assert(fields.take(n as int) =~= fields);
    r
}

/// An ordered map from names to values: pairs with distinct names.
pub type Pairs = Seq<(Seq<char>, Seq<char>)>;

/// Position of the pair named `name`.
pub open spec fn index_of_name(map: Pairs, name: Seq<char>) -> Option<int>
    decreases map.len(),
{
    if map.len() == 0 {
        None
    } else {
        match index_of_name(map.drop_last(), name) {
            Some(i) => Some(i),
            None => if map.last().0 == name {
                Some(map.len() - 1)
            } else {
                None
            },
        }
    }
}

/// The value under `name`.
pub open spec fn lookup(map: Pairs, name: Seq<char>) -> Option<Seq<char>> {
    match index_of_name(map, name) {
        Some(i) => Some(map[i].1),
        None => None,
    }
}

/// The map with `value` under `name`: in the place of the old value where
/// the name was there, else at the end.
pub open spec fn put(map: Pairs, name: Seq<char>, value: Seq<char>) -> Pairs {
    match index_of_name(map, name) {
        Some(i) => map.update(i, (name, value)),
        None => map.push((name, value)),
    }
}

/// No two pairs have the same name.
pub open spec fn distinct_keys(map: Pairs) -> bool {
    forall|i: int, j: int|
        0 <= i < map.len() && 0 <= j < map.len() && (#[trigger] map[i]).0 == (#[trigger] map[j]).0
            ==> i == j
}

/// `index_of_name` finds the first pair with the name, and finds nothing
/// exactly where no pair has it.
pub proof fn lemma_index_of_name(map: Pairs, name: Seq<char>)
    ensures
        match index_of_name(map, name) {
            Some(i) => 0 <= i < map.len() && map[i].0 == name && forall|k: int|
                0 <= k < i ==> (#[trigger] map[k]).0 != name,
            None => forall|k: int| 0 <= k < map.len() ==> (#[trigger] map[k]).0 != name,
        },
    decreases map.len(),
{
    if map.len() > 0 {
        let t = map.drop_last();
        lemma_index_of_name(t, name);
        assert(forall|k: int| 0 <= k < t.len() ==> t[k] == map[k]);
    }
}

/// Putting a value into a map with distinct names leaves the names
/// distinct, and the value is then found under its name.
pub proof fn lemma_put(map: Pairs, name: Seq<char>, value: Seq<char>)
    requires
        distinct_keys(map),
    ensures
        distinct_keys(put(map, name, value)),
        lookup(put(map, name, value), name) == Some(value),
{
    lemma_index_of_name(map, name);
    let after = put(map, name, value);
    lemma_index_of_name(after, name);
    match index_of_name(map, name) {
        Some(i) => {
            assert(after[i] == (name, value));
            assert forall|a: int, b: int|
                0 <= a < after.len() && 0 <= b < after.len() && (#[trigger] after[a]).0 == (
                #[trigger] after[b]).0 implies a == b by {
                assert(after[a].0 == map[a].0);
                assert(after[b].0 == map[b].0);
            }
        },
        None => {
            assert(after[map.len() as int] == (name, value));
            assert forall|a: int, b: int|
                0 <= a < after.len() && 0 <= b < after.len() && (#[trigger] after[a]).0 == (
                #[trigger] after[b]).0 implies a == b by {
                if a < map.len() {
                    assert(after[a] == map[a]);
                }
                if b < map.len() {
                    assert(after[b] == map[b]);
                }
            }
        },
    }
}

/// Whether an entry's field is `field`, without regard to the case of
/// ASCII letters. `field` is written in small letters.
pub open spec fn has_field(e: ParamValuesView, field: Seq<char>) -> bool {
    ascii_lower(e.field) == field
}

/// The value of the last entry that has the index `index` and the field
/// `field`.
pub open spec fn entry_value(entries: Seq<ParamValuesView>, index: Seq<char>, field: Seq<char>) -> Option<
    Seq<char>,
>
    decreases entries.len(),
{
    if entries.len() == 0 {
        None
    } else if entries.last().index == index && has_field(entries.last(), field) {
        Some(entries.last().value)
    } else {
        entry_value(entries.drop_last(), index, field)
    }
}

/// The ordered map that the first `upto` entries give. Each entry with the
/// field `key_field` names a key; its value is that of the last entry, among
/// all entries, with the same index and the field `value_field`, and a key
/// without such an entry is left out. Keys are put in the order of the
/// entries, so of two equal keys the later one gives the value.
pub open spec fn pivoted(
    entries: Seq<ParamValuesView>,
    key_field: Seq<char>,
    value_field: Seq<char>,
    upto: int,
) -> Pairs
    decreases upto,
{
    if upto <= 0 {
        Seq::empty()
    } else {
        let rest = pivoted(entries, key_field, value_field, upto - 1);
        let e = entries[upto - 1];
        if has_field(e, key_field) {
            match entry_value(entries, e.index, value_field) {
                Some(v) => put(rest, e.value, v),
                None => rest,
            }
        } else {
            rest
        }
    }
}

/// The ordered map of attributes that indexed entries give: keys from the
/// `Name` fields, values from the `Value` fields.
pub open spec fn attributes_of(entries: Seq<ParamValuesView>) -> Pairs {
    pivoted(entries, "name"@, "value"@, entries.len() as int)
}

/// The ordered map of tags that indexed entries give: keys from the `Key`
/// fields, values from the `Value` fields.
pub open spec fn tags_of(entries: Seq<ParamValuesView>) -> Pairs {
    pivoted(entries, "key"@, "value"@, entries.len() as int)
}

/// Every map that `pivoted` gives has distinct keys.
pub proof fn lemma_pivoted_distinct(
    entries: Seq<ParamValuesView>,
    key_field: Seq<char>,
    value_field: Seq<char>,
    upto: int,
)
    ensures
        distinct_keys(pivoted(entries, key_field, value_field, upto)),
    decreases upto,
{
    if upto > 0 {
        lemma_pivoted_distinct(entries, key_field, value_field, upto - 1);
        let rest = pivoted(entries, key_field, value_field, upto - 1);
        let e = entries[upto - 1];
        if has_field(e, key_field) {
            match entry_value(entries, e.index, value_field) {
                Some(v) => {
                    lemma_put(rest, e.value, v);
                },
                None => {},
            }
        }
    }
}

/// Computes `entry_value`.
fn find_entry_value<'a>(entries: &'a Vec<ParamValues>, index: &String, field: &str) -> (r: Option<
    &'a String,
>)
    ensures
        match r {
            Some(v) => entry_value(entry_views(entries@), index@, field@) == Some(v@),
            None => entry_value(entry_views(entries@), index@, field@) is None,
        },
{
    let ghost all = entry_views(entries@);
    let mut i: usize = entries.len();
    assert(all.take(i as int) =~= all);
    while i > 0
        invariant
            all == entry_views(entries@),
            i <= entries.len(),
            entry_value(all, index@, field@) == entry_value(all.take(i as int), index@, field@),
        decreases i,
    {
        assert(all.take(i as int).drop_last() =~= all.take(i - 1));
        assert(all.take(i as int).last() == entries[i - 1]@);
        let e = &entries[i - 1];
        if e.index == *index && lower_equals(e.field.as_str(), field) {
            return Some(&e.value);
        }
        i = i - 1;
    }
    None
}

/// Puts `value` under `name`, as `put` does.
pub fn put_pair(map: &mut Vec<(String, String)>, name: String, value: String)
    ensures
        pairs_view(final(map)@) == put(pairs_view(old(map)@), name@, value@),
{
    let ghost before = pairs_view(map@);
    let n = map.len();
    let mut i: usize = 0;
    while i < n
        invariant
            n == map.len(),
            *map == *old(map),
            before == pairs_view(map@),
            i <= n,
            forall|k: int| 0 <= k < i ==> (#[trigger] before[k]).0 != name@,
        decreases n - i,
    {
        assert(before[i as int].0 == map[i as int].0@);
        if map[i].0 == name {
            proof {
                lemma_index_of_name(before, name@);
            }
            let slot = &mut map[i];
            *slot = (name, value);
            assert(pairs_view(map@) =~= before.update(i as int, (name@, value@)));
            return ;
        }
        i = i + 1;
    }
    proof {
        lemma_index_of_name(before, name@);
    }
    map.push((name, value));
    assert(pairs_view(map@) =~= before.push((name@, value@)));
}

/// The value under `name`, as `lookup` gives it.
pub fn get_pair<'a>(map: &'a Vec<(String, String)>, name: &str) -> (r: Option<&'a String>)
    ensures
        match r {
            Some(v) => lookup(pairs_view(map@), name@) == Some(v@),
            None => lookup(pairs_view(map@), name@) is None,
        },
{
    let wanted = name.to_owned();
    let ghost all = pairs_view(map@);
    let n = map.len();
    let mut i: usize = 0;
    while i < n
        invariant
            n == map.len(),
            all == pairs_view(map@),
            wanted@ == name@,
            i <= n,
            forall|k: int| 0 <= k < i ==> (#[trigger] all[k]).0 != name@,
        decreases n - i,
    {
        assert(all[i as int] == (map[i as int].0@, map[i as int].1@));
        if map[i].0 == wanted {
            proof {
                lemma_index_of_name(all, name@);
            }
            return Some(&map[i].1);
        }
        i = i + 1;
    }
    proof {
        lemma_index_of_name(all, name@);
    }
    None
}

/// Turns indexed entries into an ordered map, as `pivoted` defines it.
/// `key_field` and `value_field` are written in small letters.
pub fn pivot(entries: &Vec<ParamValues>, key_field: &str, value_field: &str) -> (r: Vec<
    (String, String),
>)
    ensures
        pairs_view(r@) == pivoted(
            entry_views(entries@),
            key_field@,
            value_field@,
            entries.len() as int,
        ),
        distinct_keys(pairs_view(r@)),
{
    let ghost all = entry_views(entries@);
    let mut r: Vec<(String, String)> = Vec::new();
    let n = entries.len();
    let mut i: usize = 0;
    assert(pairs_view(r@) =~= Seq::empty());
    while i < n
        invariant
            n == entries.len(),
            all == entry_views(entries@),
            i <= n,
            pairs_view(r@) == pivoted(all, key_field@, value_field@, i as int),
        decreases n - i,
    {
        let e = &entries[i];
        assert(all[i as int] == e@);
        if lower_equals(e.field.as_str(), key_field) {
            match find_entry_value(entries, &e.index, value_field) {
                Some(v) => {
                    put_pair(&mut r, e.value.clone(), v.clone());
                },
                None => {},
            }
        }
        i = i + 1;
    }
    proof {
        lemma_pivoted_distinct(all, key_field@, value_field@, n as int);
    }
    r
}

/// The attributes that indexed entries give. See `attributes_of`.
pub fn get_attributes(entries: &Vec<ParamValues>) -> (r: Vec<(String, String)>)
    ensures
        pairs_view(r@) == attributes_of(entry_views(entries@)),
        distinct_keys(pairs_view(r@)),
{
    pivot(entries, "name", "value")
}

/// The tags that indexed entries give. See `tags_of`.
pub fn get_tags(entries: &Vec<ParamValues>) -> (r: Vec<(String, String)>)
    ensures
        pairs_view(r@) == tags_of(entry_views(entries@)),
        distinct_keys(pairs_view(r@)),
{
    pivot(entries, "key", "value")
}

} // verus!
