//! The debug listing of labels: the global labels in the cartridge area from $8000 on, by
//! address, as offsets into the image.
use crate::labels::{find_entry, find_index, Address, LabelTable};
use crate::text::text_of;
use vstd::prelude::*;

verus! {

/// Whether `c` is uppercase in Unicode's sense.
pub uninterp spec fn unicode_uppercase(c: char) -> bool;

/// Relies on `char::is_uppercase`: Unicode's Uppercase property, which on ASCII holds of
/// `A` to `Z` alone.
#[verifier::external_body]
fn char_is_uppercase(c: char) -> (r: bool)
    ensures
        r == unicode_uppercase(c),
        (c as u32) < 128 ==> (r <==> 'A' <= c <= 'Z'),
{
    c.is_uppercase()
}

/// The start of the cartridge area.
pub const CARTRIDGE_BASE: u16 = 0x8000;

/// A label that the listing shows: a global label (neither made by the macro expander nor
/// local), not starting with an uppercase letter, at a full address from $8000 on.
pub open spec fn listed(name: Seq<char>, a: Address) -> bool {
    &&& name.len() > 0
    &&& name[0] != '#'
    &&& !name.contains('.')
    &&& !unicode_uppercase(name[0])
    &&& a is Full
    &&& a->Full_0 >= CARTRIDGE_BASE
}

fn contains_dot(s: &str) -> (r: bool)
    ensures
        r == s@.contains('.'),
{
    let n = s.unicode_len();
    let mut i: usize = 0;
    while i < n
        invariant
            n == s@.len(),
            i <= n,
            forall|j: int| 0 <= j < i ==> s@[j] != '.',
        decreases n - i,
    {
        if s.get_char(i) == '.' {
            return true;
        }
        i += 1;
    }
    false
}

fn is_listed(name: &str, a: Address) -> (r: bool)
    ensures
        r == listed(name@, a),
{
    if name.unicode_len() == 0 {
        return false;
    }
    let c = name.get_char(0);
    if c == '#' || contains_dot(name) || char_is_uppercase(c) {
        return false;
    }
    match a {
        Address::Full(v) => v >= CARTRIDGE_BASE,
        _ => false,
    }
}

/// The offset into the image of each listed label with its name, in order of address; every
/// listed label appears once.
pub fn debug_labels(labels: &LabelTable) -> (r: Vec<(u16, String)>)
    ensures
        forall|i: int, j: int| 0 <= i < j < r@.len() ==> r@[i].0 <= r@[j].0,
        forall|i: int|
            0 <= i < r@.len() ==> {
                let k = (#[trigger] r@[i]).1@;
                &&& labels@.contains_key(k)
                &&& listed(k, labels@[k])
                &&& r@[i].0 == labels@[k].value() - CARTRIDGE_BASE
            },
        forall|k: Seq<char>|
            labels@.contains_key(k) && listed(k, #[trigger] labels@[k]) ==> exists|i: int|
                0 <= i < r@.len() && r@[i].1@ == k,
        forall|i: int, j: int| 0 <= i < j < r@.len() ==> r@[i].1@ != r@[j].1@,
{
    let ghost es = labels.entries@;
    let mut r: Vec<(u16, String)> = Vec::new();
    let mut e: usize = 0;
    while e < labels.entries.len()
        invariant
            es == labels.entries@,
            e <= es.len(),
            forall|i: int, j: int| 0 <= i < j < r@.len() ==> r@[i].0 <= r@[j].0,
            forall|i: int|
                0 <= i < r@.len() ==> {
                    let k = (#[trigger] r@[i]).1@;
                    &&& labels@.contains_key(k)
                    &&& listed(k, labels@[k])
                    &&& r@[i].0 == labels@[k].value() - CARTRIDGE_BASE
                    &&& 0 <= find_index(es, k) < e
                },
            forall|j: int|
                0 <= j < e && find_index(es, (#[trigger] es[j]).0@) == j && listed(
                    es[j].0@,
                    es[j].1.address,
                ) ==> exists|i: int| 0 <= i < r@.len() && r@[i].1@ == es[j].0@,
            forall|i: int, j: int| 0 <= i < j < r@.len() ==> r@[i].1@ != r@[j].1@,
        decreases es.len() - e,
    {
        let name = labels.entries[e].0.as_str();
        let address = labels.entries[e].1.address;
        proof {
            crate::labels::lemma_find_index(es, es[e as int].0@);
        }
        if labels.is_latest(name, e) && is_listed(name, address) {
            let offset = match address {
                Address::Full(v) => v - CARTRIDGE_BASE,
                _ => 0,
            };
            let mut p: usize = 0;
            while p < r.len() && r[p].0 <= offset
                invariant
                    p <= r@.len(),
                    forall|i: int| 0 <= i < p ==> r@[i].0 <= offset,
                decreases r@.len() - p,
            {
                p += 1;
            }
            let ghost old_r = r@;
            let ghost key = name@;
            r.insert(p, (offset, text_of(name)));
            proof {
                assert(r@ == old_r.insert(p as int, (offset, r@[p as int].1)));
                assert forall|i: int, j: int| 0 <= i < j < r@.len() implies r@[i].0 <= r@[j].0 by {
                    if j < p {
                    } else if j == p {
                    } else if i < p {
                        assert(old_r[i].0 <= offset);
                        if p < old_r.len() {
                            assert(old_r[p as int].0 > offset);
                            assert(old_r[p as int].0 <= old_r[j - 1].0 || j - 1 == p);
                        }
                    } else if i == p {
                        assert(old_r[p as int].0 > offset);
                        assert(old_r[p as int].0 <= old_r[j - 1].0 || j - 1 == p);
                    }
                }
                assert forall|j: int|
                    0 <= j < e + 1 && find_index(es, (#[trigger] es[j]).0@) == j && listed(
                        es[j].0@,
                        es[j].1.address,
                    ) implies exists|i: int| 0 <= i < r@.len() && r@[i].1@ == es[j].0@ by {
                    if j == e {
                        assert(r@[p as int].1@ == es[j].0@);
                    } else {
                        let i = choose|i: int| 0 <= i < old_r.len() && old_r[i].1@ == es[j].0@;
                        if i < p {
                            assert(r@[i].1@ == es[j].0@);
                        } else {
                            assert(r@[i + 1].1@ == es[j].0@);
                        }
                    }
                }
            }
        }
        e += 1;
    }
    proof {
        assert forall|k: Seq<char>| labels@.contains_key(k) && listed(k, #[trigger] labels@[k]) implies exists|i: int|
            0 <= i < r@.len() && r@[i].1@ == k by {
            crate::labels::lemma_find_index(es, k);
            let j = find_index(es, k);
            assert(es[j].0@ == k);
        }
    }
    r
}

} // verus!
