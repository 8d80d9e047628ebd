//! How deep AMF0 values nest.
//!
//! Objects and arrays of AMF0 hold values, which may be objects and arrays again. A
//! decoder that recurses with them needs stack for each level, so data from outside
//! is measured before it is decoded.
use crate::bits::{be16, be32, u16_from_be, u32_from_be};
use vstd::prelude::*;

verus! {

/// How many levels of objects and arrays are decoded. A level takes the decoder one
/// to two KiB of stack, so these fit in half of the 2 MiB that a thread has by
/// default.
pub const MAX_NESTING: usize = 512;

/// An object or array that is open at some place of the data.
#[derive(Clone, Copy, Debug, PartialEq, Eq, Structural)]
pub enum Level {
    /// An object, or an array with names: properties up to an end marker.
    Object,
    /// An array with this many values to come.
    Array(u32),
}

/// A place of the data and what is open there.
#[verifier::ext_equal]
pub struct Place {
    pub pos: int,
    pub levels: Seq<Level>,
}

/// A length, cut to the bytes that there are behind a position.
pub open spec fn cut_length(data: Seq<u8>, pos: int, n: nat) -> int {
    if n <= data.len() - pos {
        n as int
    } else {
        data.len() - pos
    }
}

/// The place behind a value, or inside of it where it is an object or array. `None`
/// where nothing can be opened any more: the data ends or is no AMF0.
pub open spec fn behind_value(data: Seq<u8>, at: Place) -> Option<Place> {
    let left = data.len() - at.pos;
    if left < 1 {
        None
    } else {
        let marker = data[at.pos];
        if marker == 0 && left >= 9 {
            Some(Place { pos: at.pos + 9, ..at })
        } else if marker == 1 && left >= 2 {
            Some(Place { pos: at.pos + 2, ..at })
        } else if marker == 2 && left >= 3 {
            let n = be16(data[at.pos + 1], data[at.pos + 2]);
            Some(Place { pos: at.pos + 3 + cut_length(data, at.pos + 3, n), ..at })
        } else if marker == 3 {
            Some(Place { pos: at.pos + 1, levels: at.levels.push(Level::Object) })
        } else if marker == 5 || marker == 6 {
            Some(Place { pos: at.pos + 1, ..at })
        } else if marker == 8 && left >= 5 {
            Some(Place { pos: at.pos + 5, levels: at.levels.push(Level::Object) })
        } else if marker == 9 && at.levels.len() > 0 && at.levels.last() is Array {
            Some(Place { pos: at.pos + 1, levels: at.levels.drop_last() })
        } else if marker == 10 && left >= 5 {
            let n = be32(
                data[at.pos + 1],
                data[at.pos + 2],
                data[at.pos + 3],
                data[at.pos + 4],
            );
            Some(Place { pos: at.pos + 5, levels: at.levels.push(Level::Array(n as u32)) })
        } else {
            None
        }
    }
}

/// The next place: an array without values to come is left, a property of an object
/// is its name and its value, an empty name ends the object.
pub open spec fn next_place(data: Seq<u8>, at: Place) -> Option<Place> {
    if at.levels.len() == 0 {
        behind_value(data, at)
    } else {
        match at.levels.last() {
            Level::Array(n) => if n == 0 {
                Some(Place { levels: at.levels.drop_last(), ..at })
            } else {
                behind_value(
                    data,
                    Place { levels: at.levels.drop_last().push(Level::Array((n - 1) as u32)), ..at },
                )
            },
            Level::Object => if data.len() - at.pos < 2 {
                None
            } else {
                let n = be16(data[at.pos], data[at.pos + 1]);
                if n > 0 {
                    behind_value(
                        data,
                        Place { pos: at.pos + 2 + cut_length(data, at.pos + 2, n), ..at },
                    )
                } else if data.len() - at.pos >= 3 && data[at.pos + 2] == 9 {
                    Some(Place { pos: at.pos + 3, levels: at.levels.drop_last() })
                } else {
                    None
                }
            },
        }
    }
}

/// Whether more than `limit` levels are open at some place from this one on.
pub open spec fn nests_deeper(data: Seq<u8>, at: Place, limit: nat) -> bool
    decreases data.len() - at.pos, at.levels.len(),
{
    at.levels.len() > limit || match next_place(data, at) {
        None => false,
        Some(next) => if at.pos < next.pos <= data.len() || (at.pos == next.pos && next.levels.len()
            < at.levels.len()) {
            nests_deeper(data, next, limit)
        } else {
            false
        },
    }
}

/// Whether data nests no deeper than is decoded.
pub open spec fn nests_within_limit(data: Seq<u8>) -> bool {
    !nests_deeper(data, Place { pos: 0, levels: Seq::empty() }, MAX_NESTING as nat)
}

fn cut_to(data: &[u8], pos: usize, n: u16) -> (r: usize)
    requires
        pos <= data@.len(),
    ensures
        r == pos + cut_length(data@, pos as int, n as nat),
        r <= data@.len(),
{
    if n as usize <= data.len() - pos {
        pos + n as usize
    } else {
        data.len()
    }
}

/// Moves behind a value, or inside of it.
fn pass_value(data: &[u8], pos: usize, levels: &mut Vec<Level>) -> (r: Option<usize>)
    requires
        pos <= data@.len(),
    ensures
        match behind_value(data@, Place { pos: pos as int, levels: old(levels)@ }) {
            Some(next) => r matches Some(p) && p == next.pos && pos < p <= data@.len()
                && final(levels)@ == next.levels,
            None => r is None,
        },
{
    let left: usize = data.len() - pos;
    if left < 1 {
        return None;
    }
    let marker: u8 = data[pos];
    if marker == 0 && left >= 9 {
        Some(pos + 9)
    } else if marker == 1 && left >= 2 {
        Some(pos + 2)
    } else if marker == 2 && left >= 3 {
        let n: u16 = u16_from_be(data[pos + 1], data[pos + 2]);
        Some(cut_to(data, pos + 3, n))
    } else if marker == 3 {
        levels.push(Level::Object);
        Some(pos + 1)
    } else if marker == 5 || marker == 6 {
        Some(pos + 1)
    } else if marker == 8 && left >= 5 {
        levels.push(Level::Object);
        Some(pos + 5)
    } else if marker == 9 && levels.len() > 0 && matches!(levels[levels.len() - 1], Level::Array(_)) {
        let _ = levels.pop();
        Some(pos + 1)
    } else if marker == 10 && left >= 5 {
        let n: u32 = u32_from_be(data[pos + 1], data[pos + 2], data[pos + 3], data[pos + 4]);
        levels.push(Level::Array(n));
        Some(pos + 5)
    } else {
        None
    }
}

/// Moves to the next place.
fn pass(data: &[u8], pos: usize, levels: &mut Vec<Level>) -> (r: Option<usize>)
    requires
        pos <= data@.len(),
    ensures
        match next_place(data@, Place { pos: pos as int, levels: old(levels)@ }) {
            Some(next) => r matches Some(p) && p == next.pos && p <= data@.len() && final(levels)@
                == next.levels && (pos < p || (p == pos && next.levels.len() < old(levels)@.len())),
            None => r is None,
        },
{
    if levels.len() == 0 {
        return pass_value(data, pos, levels);
    }
    let top: Level = levels[levels.len() - 1];
    match top {
        Level::Array(n) => {
            let _ = levels.pop();
            if n == 0 {
                return Some(pos);
            }
            levels.push(Level::Array(n - 1));
            pass_value(data, pos, levels)
        },
        Level::Object => {
            if data.len() - pos < 2 {
                return None;
            }
            let n: u16 = u16_from_be(data[pos], data[pos + 1]);
            if n > 0 {
                return pass_value(data, cut_to(data, pos + 2, n), levels);
            }
            if data.len() - pos >= 3 && data[pos + 2] == 9 {
                let _ = levels.pop();
                return Some(pos + 3);
            }
            None
        },
    }
}

/// Whether data nests no deeper than is decoded.
pub fn is_nested_within_limit(data: &[u8]) -> (r: bool)
    ensures
        r == nests_within_limit(data@),
{
    let mut levels: Vec<Level> = Vec::new();
    let mut pos: usize = 0;
    assert(levels@ =~= Seq::empty());
    loop
        invariant
            pos <= data@.len(),
            nests_within_limit(data@) == !nests_deeper(
                data@,
                Place { pos: pos as int, levels: levels@ },
                MAX_NESTING as nat,
            ),
        decreases data@.len() - pos, levels@.len(),
    {
        if levels.len() > MAX_NESTING {
            return false;
        }
        match pass(data, pos, &mut levels) {
            None => {
                return true;
            },
            Some(next) => {
                pos = next;
            },
        }
    }
}

/// Objects and both kinds of arrays open a level, other values open none, and the end
/// of an object closes one.
pub proof fn law_containers_open_levels(data: Seq<u8>, at: Place)
    requires
        0 <= at.pos < data.len(),
    ensures
        ({
            let marker = data[at.pos];
            let left = data.len() - at.pos;
            let inside = behind_value(data, at);
            &&& marker == 3 || (marker == 8 || marker == 10) && left >= 5 ==> inside is Some
                && inside->0.levels.len() == at.levels.len() + 1
            &&& marker <= 2 || marker == 5 || marker == 6 ==> (inside is Some
                ==> inside->0.levels == at.levels)
            &&& inside is Some ==> inside->0.levels.len() <= at.levels.len() + 1
                && inside->0.pos > at.pos
        }),
        at.levels.len() > 0 && at.levels.last() is Object && at.pos + 3 <= data.len()
            && data[at.pos] == 0 && data[at.pos + 1] == 0 && data[at.pos + 2] == 9 ==> next_place(
            data,
            at,
        ) == Some(Place { pos: at.pos + 3, levels: at.levels.drop_last() }),
{
}

} // verus!
