//! Decoding of JSON values into typed records, one value or a list at a time.

use crate::json::Json;
use vstd::prelude::*;

verus! {

/// How a call to the external platform ended.
#[derive(Debug)]
pub enum Fetched {
    /// No reply came; the text says why.
    Failed(String),
    /// A reply came, with an HTTP status and a body.
    Replied { status: u16, body: String },
}

impl Fetched {
    pub fn copy(&self) -> (copy: Fetched)
        ensures
            copy == *self,
    {
        match self {
            Fetched::Failed(why) => Fetched::Failed(why.clone()),
            Fetched::Replied { status, body } => Fetched::Replied {
                status: *status,
                body: body.clone(),
            },
        }
    }
}

/// A record that is read from a JSON value.
pub trait Decode: Sized + View {
    /// What a JSON value decodes to, or `None` where it is no such record.
    spec fn decoded(j: Json) -> Option<Self::V>;

    fn decode(j: &Json) -> (record: Option<Self>)
        ensures
            match record {
                Some(r) => Self::decoded(*j) == Some(r@),
                None => Self::decoded(*j) is None,
            },
    ;
}

/// The views of a sequence of records.
pub open spec fn views<T: View>(items: Seq<T>) -> Seq<T::V> {
    items.map_values(|item: T| item@)
}

/// The views of a list of records that may be missing.
pub open spec fn optional_views<T: View>(items: Option<Vec<T>>) -> Option<Seq<T::V>> {
    match items {
        Some(list) => Some(views(list@)),
        None => None,
    }
}

/// The characters of a string that may be missing.
pub open spec fn optional_text(s: Option<String>) -> Option<Seq<char>> {
    match s {
        Some(text) => Some(text@),
        None => None,
    }
}

/// The whole number held by an optional 64-bit number.
pub open spec fn optional_int(n: Option<i64>) -> Option<int> {
    match n {
        Some(v) => Some(v as int),
        None => None,
    }
}

/// The records among the values of a list, in order; a value that is no such
/// record is passed over.
pub open spec fn each_decoded<T: Decode>(list: Seq<Json>) -> Seq<T::V>
    decreases list.len(),
{
    if list.len() == 0 {
        Seq::empty()
    } else {
        let head = each_decoded::<T>(list.drop_last());
        match T::decoded(list.last()) {
            Some(record) => head.push(record),
            None => head,
        }
    }
}

/// The records that the values of a list decode to, in order, or `None`
/// where one of the values is no such record.
pub open spec fn all_decoded<T: Decode>(list: Seq<Json>) -> Option<Seq<T::V>>
    decreases list.len(),
{
    if list.len() == 0 {
        Some(Seq::empty())
    } else {
        match (all_decoded::<T>(list.drop_last()), T::decoded(list.last())) {
            (Some(head), Some(record)) => Some(head.push(record)),
            _ => None,
        }
    }
}

/// Decodes the values of a list that are records, and passes over the others.
pub fn decode_each<T: Decode>(list: &Vec<Json>) -> (records: Vec<T>)
    ensures
        views(records@) == each_decoded::<T>(list@),
{
    let mut records: Vec<T> = Vec::new();
    let mut i: usize = 0;
    proof {
        assert(list@.take(0) =~= Seq::<Json>::empty());
        assert(views(records@) =~= each_decoded::<T>(list@.take(0)));
    }
    while i < list.len()
        invariant
            i <= list@.len(),
            views(records@) == each_decoded::<T>(list@.take(i as int)),
        decreases list@.len() - i,
    {
        proof {
            assert(list@.take(i + 1).drop_last() =~= list@.take(i as int));
            assert(list@.take(i + 1).last() == list@[i as int]);
        }
        let ghost before = records@;
        match T::decode(&list[i]) {
            Some(record) => {
                records.push(record);
                proof {
                    assert(views(records@) =~= views(before).push(record@));
                }
            },
            None => {},
        }
        i += 1;
    }
    proof {
        assert(list@.take(list@.len() as int) =~= list@);
    }
    records
}

/// Decodes every value of a list, or nothing where one of them is no record.
pub fn decode_all<T: Decode>(list: &Vec<Json>) -> (records: Option<Vec<T>>)
    ensures
        optional_views(records) == all_decoded::<T>(list@),
{
    let mut records: Vec<T> = Vec::new();
    let mut i: usize = 0;
    proof {
        assert(list@.take(0) =~= Seq::<Json>::empty());
        assert(views(records@) =~= Seq::<T::V>::empty());
    }
    while i < list.len()
        invariant
            i <= list@.len(),
            all_decoded::<T>(list@.take(i as int)) == Some(views(records@)),
        decreases list@.len() - i,
    {
        proof {
            assert(list@.take(i + 1).drop_last() =~= list@.take(i as int));
            assert(list@.take(i + 1).last() == list@[i as int]);
        }
        let ghost before = records@;
        match T::decode(&list[i]) {
            Some(record) => {
                records.push(record);
                proof {
                    assert(views(records@) =~= views(before).push(record@));
                }
            },
            None => {
                proof {
                    lemma_all_decoded_prefix::<T>(list@, i + 1);
                }
                return None;
            },
        }
        i += 1;
    }
    proof {
        assert(list@.take(list@.len() as int) =~= list@);
    }
    Some(records)
}

/// Where a prefix of a list does not decode in full, the list does not.
pub proof fn lemma_all_decoded_prefix<T: Decode>(list: Seq<Json>, n: int)
    requires
        0 <= n <= list.len(),
        all_decoded::<T>(list.take(n)) is None,
    ensures
        all_decoded::<T>(list) is None,
    decreases list.len() - n,
{
    if n < list.len() {
        assert(list.take(n + 1).drop_last() =~= list.take(n));
        lemma_all_decoded_prefix::<T>(list, n + 1);
    } else {
        assert(list.take(n) =~= list);
    }
}

/// The list member `key` of an object, each of its values decoded or passed
/// over; a missing or `null` member gives `Some(None)`, a member of another
/// type gives `None`.
pub open spec fn optional_each_at<T: Decode>(j: Json, key: Seq<char>) -> Option<
    Option<Seq<T::V>>,
> {
    match j.present(key) {
        None => Some(None),
        Some(Json::List(items)) => Some(Some(each_decoded::<T>(items@))),
        Some(_) => None,
    }
}

/// Decodes the list member `key` of an object, passing over what does not
/// decode.
pub fn decode_optional_each<T: Decode>(j: &Json, key: &str) -> (found: Option<Option<Vec<T>>>)
    ensures
        match found {
            Some(list) => optional_each_at::<T>(*j, key@) == Some(optional_views(list)),
            None => optional_each_at::<T>(*j, key@) is None,
        },
{
    match j.get_present(key) {
        None => Some(None),
        Some(value) => match value.as_list() {
            Some(items) => Some(Some(decode_each::<T>(items))),
            None => None,
        },
    }
}

} // verus!
