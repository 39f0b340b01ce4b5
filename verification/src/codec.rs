//! The page codec: one server response body becomes an ordered item list
//! plus the two cursor tokens.
use vstd::prelude::*;
use crate::errors::Error;
use crate::json::{json_of, parse_json, JVal};
use crate::UserId;

verus! {

/// The mathematical content of one decoded page.
pub struct PageM {
    pub values: Seq<usize>,
    pub next: Seq<char>,
    pub prev: Seq<char>,
}

/// One decoded page: the ordered items plus the opaque cursor tokens to the
/// neighbouring pages.  A missing cursor key decodes to the empty string; a
/// missing item key decodes to an empty item list.
#[derive(Clone, Debug)]
pub struct CursorData {
    pub values: Vec<UserId>,
    pub next_cursor_str: String,
    pub prev_cursor_str: String,
}

impl View for CursorData {
    type V = PageM;

    open spec fn view(&self) -> PageM {
        PageM { values: self.values@, next: self.next_cursor_str@, prev: self.prev_cursor_str@ }
    }
}

impl Default for CursorData {
    /// The page every decode starts from: no items, empty cursors.
    fn default() -> (r: Self)
        ensures
            r@.values == Seq::<usize>::empty(),
            r@.next == Seq::<char>::empty(),
            r@.prev == Seq::<char>::empty(),
    {
        CursorData { values: Vec::new(), next_cursor_str: String::new(), prev_cursor_str: String::new() }
    }
}

/// Every element of `vs` is an unsigned integer.
pub open spec fn is_uint_arr(vs: Seq<JVal>) -> bool {
    forall|i: int| 0 <= i < vs.len() ==> vs[i] is UInt
}

/// The integers of an all-integer array, in order.
pub open spec fn uints_of(vs: Seq<JVal>) -> Seq<usize> {
    Seq::new(vs.len(), |i: int| vs[i]->UInt_0)
}

/// The fold of the object entries, in order, onto the empty page: the two
/// cursor keys set the cursor tokens (a non-string value there is a decode
/// failure, `None`); any other key whose value is an array of unsigned
/// integers sets the items, the last such key winning; every other entry is
/// ignored.
pub open spec fn decode_entries(entries: Seq<(String, JVal)>) -> Option<PageM>
    decreases entries.len(),
{
    if entries.len() == 0 {
        Some(PageM { values: Seq::empty(), next: Seq::empty(), prev: Seq::empty() })
    } else {
        match decode_entries(entries.drop_last()) {
            None => None,
            Some(m) => {
                let k = entries.last().0;
                let v = entries.last().1;
                if k@ == "next_cursor_str"@ {
                    match v {
                        JVal::Str(s) => Some(PageM { next: s@, ..m }),
                        _ => None,
                    }
                } else if k@ == "prev_cursor_str"@ {
                    match v {
                        JVal::Str(s) => Some(PageM { prev: s@, ..m }),
                        _ => None,
                    }
                } else {
                    match v {
                        JVal::Arr(vs) => if is_uint_arr(vs@) {
                            Some(PageM { values: uints_of(vs@), ..m })
                        } else {
                            Some(m)
                        },
                        _ => Some(m),
                    }
                }
            },
        }
    }
}

/// What decoding a raw body yields: a decode failure when the body is not a
/// JSON object or an entry fold fails, otherwise the folded page.
pub open spec fn spec_decode_page(doc: Option<JVal>) -> Result<PageM, Error> {
    match doc {
        Some(JVal::Obj(entries)) => match decode_entries(entries@) {
            Some(m) => Ok(m),
            None => Err(Error::Decode),
        },
        _ => Err(Error::Decode),
    }
}

/// The result of [`CursorData::from_slice`] seen at the model level.
pub open spec fn decode_result_view(r: Result<CursorData, Error>) -> Result<PageM, Error> {
    match r {
        Ok(cd) => Ok(cd@),
        Err(e) => Err(e),
    }
}

impl CursorData {
    /// Decodes one raw page body.
    pub fn from_slice(slice: &[u8]) -> (r: Result<CursorData, Error>)
        ensures
            decode_result_view(r) == spec_decode_page(json_of(slice@)),
    {
        let doc = parse_json(slice);
        match doc {
            Some(JVal::Obj(entries)) => {
                let mut cd = CursorData::default();
                let next_key: String = "next_cursor_str".to_owned();
                let prev_key: String = "prev_cursor_str".to_owned();
                let n = entries.len();
                let mut i: usize = 0;
                while i < n
                    invariant
                        n == entries.len(),
                        i <= n,
                        decode_entries(entries@.take(i as int)) == Some(cd@),
                        json_of(slice@) == Some(JVal::Obj(entries)),
                        next_key@ == "next_cursor_str"@,
                        prev_key@ == "prev_cursor_str"@,
                    decreases n - i,
                {
                    proof {
                        assert(entries@.take(i + 1).drop_last() =~= entries@.take(i as int));
                        assert(entries@.take(i + 1).last() == entries@[i as int]);
                    }
                    let entry = &entries[i];
                    if entry.0 == next_key {
                        match &entry.1 {
                            JVal::Str(s) => {
                                cd.next_cursor_str = s.clone();
                            },
                            _ => {
                                proof {
                                    entries_failure_propagates(entries@, i as int);
                                }
                                return Err(Error::Decode);
                            },
                        }
                    } else if entry.0 == prev_key {
                        match &entry.1 {
                            JVal::Str(s) => {
                                cd.prev_cursor_str = s.clone();
                            },
                            _ => {
                                proof {
                                    entries_failure_propagates(entries@, i as int);
                                }
                                return Err(Error::Decode);
                            },
                        }
                    } else {
                        match &entry.1 {
                            JVal::Arr(vs) => {
                                match all_uints(vs) {
                                    Some(nums) => {
                                        cd.values = nums;
                                    },
                                    None => {},
                                }
                            },
                            _ => {},
                        }
                    }
                    i = i + 1;
                }
                proof {
                    assert(entries@.take(n as int) =~= entries@);
                }
                Ok(cd)
            },
            _ => Err(Error::Decode),
        }
    }
}

/// Once the fold of the first `i` entries has failed, the fold of any longer
/// prefix — in particular the whole sequence — fails too.
proof fn entries_failure_propagates(entries: Seq<(String, JVal)>, i: int)
    requires
        0 <= i < entries.len(),
        decode_entries(entries.take(i + 1)) is None,
    ensures
        decode_entries(entries) is None,
    decreases entries.len() - i,
{
    if i + 1 == entries.len() {
        assert(entries.take(i + 1) =~= entries);
    } else {
        assert(entries.take(i + 2).drop_last() =~= entries.take(i + 1));
        entries_failure_propagates(entries, i + 1);
    }
}

/// Collects the integers of `vs` when every element is an unsigned integer,
/// and reports `None` otherwise.
fn all_uints(vs: &Vec<JVal>) -> (r: Option<Vec<usize>>)
    ensures
        match r {
            Some(nums) => is_uint_arr(vs@) && nums@ == uints_of(vs@),
            None => !is_uint_arr(vs@),
        },
{
    let mut nums: Vec<usize> = Vec::new();
    let n = vs.len();
    let mut j: usize = 0;
    while j < n
        invariant
            n == vs.len(),
            j <= n,
            is_uint_arr(vs@.take(j as int)),
            nums@ == uints_of(vs@.take(j as int)),
        decreases n - j,
    {
        match &vs[j] {
            JVal::UInt(u) => {
                nums.push(*u);
                proof {
                    assert(nums@ =~= uints_of(vs@.take(j + 1)));
                }
            },
            _ => {
                return None;
            },
        }
        j = j + 1;
    }
    proof {
        assert(vs@.take(n as int) =~= vs@);
    }
    Some(nums)
}

} // verus!
