//! Resolved addresses and the table of labels that maps names to them.
use crate::error::AssemblyError;
use crate::expression::Operator;
use crate::text::same_text;
use vstd::prelude::*;

verus! {

/// A resolved address that remembers whether it fits the zero page.
#[derive(Debug, Clone, Copy, PartialEq, Eq, Structural)]
pub enum Address {
    Full(u16),
    ZeroPage(u8),
}

impl Address {
    /// The numeric value of the address.
    pub open spec fn value(self) -> u16 {
        match self {
            Address::Full(n) => n,
            Address::ZeroPage(n) => n as u16,
        }
    }
}

/// `op` applied to two bytes, wrapping modulo 256; `None` for an operator that addresses do
/// not combine with, or a division by zero.
pub open spec fn byte_op(n: u8, m: u8, op: Operator) -> Option<u8> {
    match op {
        Operator::Add => Some(((n + m) % 256) as u8),
        Operator::Sub => Some(((n - m) % 256) as u8),
        Operator::Mul => Some(((n * m) % 256) as u8),
        Operator::Div => if m == 0 { None } else { Some((n / m) as u8) },
        Operator::And => Some(n & m),
        Operator::Or => Some(n | m),
        Operator::Xor => Some(n ^ m),
        _ => None,
    }
}

/// `op` applied to two words, wrapping modulo 65536; `None` as for [`byte_op`].
pub open spec fn word_op(n: u16, m: u16, op: Operator) -> Option<u16> {
    match op {
        Operator::Add => Some(((n + m) % 65536) as u16),
        Operator::Sub => Some(((n - m) % 65536) as u16),
        Operator::Mul => Some(((n * m) % 65536) as u16),
        Operator::Div => if m == 0 { None } else { Some((n / m) as u16) },
        Operator::And => Some(n & m),
        Operator::Or => Some(n | m),
        Operator::Xor => Some(n ^ m),
        _ => None,
    }
}

/// Two zero-page addresses combine into a zero-page address; as soon as one of them is a
/// full address the result is a full address.
pub open spec fn address_op(a: Address, b: Address, op: Operator) -> Option<Address> {
    match (a, b) {
        (Address::ZeroPage(n), Address::ZeroPage(m)) => match byte_op(n, m, op) {
            Some(r) => Some(Address::ZeroPage(r)),
            None => None,
        },
        _ => match word_op(a.value(), b.value(), op) {
            Some(r) => Some(Address::Full(r)),
            None => None,
        },
    }
}

fn byte_calc(n: u8, m: u8, op: Operator) -> (r: Option<u8>)
    ensures
        r == byte_op(n, m, op),
{
    match op {
        Operator::Add => Some(((n as u16 + m as u16) % 256) as u8),
        Operator::Sub => Some(((n as u16 + 256 - m as u16) % 256) as u8),
        Operator::Mul => {
            assert((n as u16) * (m as u16) <= 255 * 255) by (nonlinear_arith)
                requires
                    n <= 255,
                    m <= 255,
            ;
            Some(((n as u16 * m as u16) % 256) as u8)
        },
        Operator::Div => if m == 0 {
            None
        } else {
            Some(n / m)
        },
        Operator::And => Some(n & m),
        Operator::Or => Some(n | m),
        Operator::Xor => Some(n ^ m),
        _ => None,
    }
}

fn word_calc(n: u16, m: u16, op: Operator) -> (r: Option<u16>)
    ensures
        r == word_op(n, m, op),
{
    match op {
        Operator::Add => Some(((n as u32 + m as u32) % 65536) as u16),
        Operator::Sub => Some(((n as u32 + 65536 - m as u32) % 65536) as u16),
        Operator::Mul => {
            assert((n as u32) * (m as u32) <= 65535 * 65535) by (nonlinear_arith)
                requires
                    n <= 65535,
                    m <= 65535,
            ;
            Some(((n as u32 * m as u32) % 65536) as u16)
        },
        Operator::Div => if m == 0 {
            None
        } else {
            Some(n / m)
        },
        Operator::And => Some(n & m),
        Operator::Or => Some(n | m),
        Operator::Xor => Some(n ^ m),
        _ => None,
    }
}

impl Address {
    pub fn value_of(&self) -> (r: u16)
        ensures
            r == self.value(),
    {
        match self {
            Address::Full(n) => *n,
            Address::ZeroPage(n) => *n as u16,
        }
    }

    /// Combines two addresses with `op`.
    pub fn calculate_with(&self, other: &Address, op: &Operator) -> (r: Result<Self, AssemblyError>)
        ensures
            r is Ok <==> address_op(*self, *other, *op) is Some,
            r matches Ok(a) ==> a == address_op(*self, *other, *op)->Some_0,
            r matches Err(e) ==> e is Syntax,
    {
        let result = match (self, other) {
            (Address::ZeroPage(n), Address::ZeroPage(m)) => match byte_calc(*n, *m, *op) {
                Some(v) => Some(Address::ZeroPage(v)),
                None => None,
            },
            _ => match word_calc(self.value_of(), other.value_of(), *op) {
                Some(v) => Some(Address::Full(v)),
                None => None,
            },
        };
        match result {
            Some(a) => Ok(a),
            None => Err(AssemblyError::expression("addresses do not combine with this operator")),
        }
    }
}

/// Zero-page operands combine modulo 256 and stay in the zero page.
pub proof fn lemma_zero_page_stays(a: u8, b: u8)
    ensures
        address_op(Address::ZeroPage(a), Address::ZeroPage(b), Operator::Add) == Some(
            Address::ZeroPage(((a + b) % 256) as u8),
        ),
        address_op(Address::ZeroPage(a), Address::ZeroPage(b), Operator::Sub) == Some(
            Address::ZeroPage(((a - b) % 256) as u8),
        ),
{
}

/// Whenever one operand is a full address, a combined address is a full address.
pub proof fn lemma_full_promotes(a: Address, b: Address, op: Operator)
    requires
        a is Full || b is Full,
        address_op(a, b, op) is Some,
    ensures
        address_op(a, b, op)->Some_0 is Full,
{
}

/// The operators that do not combine addresses: comma and the comparisons.
pub open spec fn is_address_operator(op: Operator) -> bool {
    op is Add || op is Sub || op is Mul || op is Div || op is And || op is Or || op is Xor
}

/// Combining two addresses with any other operator fails.
pub proof fn lemma_other_operators_fail(a: Address, b: Address, op: Operator)
    requires
        !is_address_operator(op),
    ensures
        address_op(a, b, op) is None,
{
}

/// A label, where it was defined, and the address it stands for.
#[derive(Debug, Clone)]
pub struct LabelEntry {
    pub name: String,
    pub line: usize,
    pub address: Address,
}

/// The most recent entry stored under `key` in `s`.
pub open spec fn find_entry(s: Seq<(String, LabelEntry)>, key: Seq<char>) -> Option<LabelEntry>
    decreases s.len(),
{
    if s.len() == 0 {
        None
    } else if s.last().0@ == key {
        Some(s.last().1)
    } else {
        find_entry(s.drop_last(), key)
    }
}

/// The index at which [`find_entry`] finds `key`, or -1.
pub open spec fn find_index(s: Seq<(String, LabelEntry)>, key: Seq<char>) -> int
    decreases s.len(),
{
    if s.len() == 0 {
        -1
    } else if s.last().0@ == key {
        s.len() - 1
    } else {
        find_index(s.drop_last(), key)
    }
}

pub proof fn lemma_find_index(s: Seq<(String, LabelEntry)>, key: Seq<char>)
    ensures
        -1 <= find_index(s, key) < s.len(),
        find_index(s, key) == -1 <==> find_entry(s, key) is None,
        find_index(s, key) >= 0 ==> find_entry(s, key) == Some(s[find_index(s, key)].1)
            && s[find_index(s, key)].0@ == key,
    decreases s.len(),
{
    if s.len() > 0 && s.last().0@ != key {
        lemma_find_index(s.drop_last(), key);
    }
}

proof fn lemma_find_after_update(
    s: Seq<(String, LabelEntry)>,
    key: Seq<char>,
    e: LabelEntry,
    other: Seq<char>,
)
    requires
        find_index(s, key) >= 0,
    ensures
        find_entry(s.update(find_index(s, key), (s[find_index(s, key)].0, e)), other) == if other
            == key {
            Some(e)
        } else {
            find_entry(s, other)
        },
    decreases s.len(),
{
    lemma_find_index(s, key);
    let i = find_index(s, key);
    let t = s.update(i, (s[i].0, e));
    if i == s.len() - 1 {
        assert(t.drop_last() =~= s.drop_last());
    } else {
        assert(t.drop_last() =~= s.drop_last().update(i, (s[i].0, e)));
        lemma_find_after_update(s.drop_last(), key, e, other);
    }
}

/// The labels of a program: each name maps to the entry most recently stored under it.
pub struct LabelTable {
    pub entries: Vec<(String, LabelEntry)>,
}

impl View for LabelTable {
    type V = Map<Seq<char>, Address>;

    /// The address of each label.
    open spec fn view(&self) -> Map<Seq<char>, Address> {
        Map::new(
            |k: Seq<char>| find_entry(self.entries@, k) is Some,
            |k: Seq<char>| find_entry(self.entries@, k)->Some_0.address,
        )
    }
}

impl LabelTable {
    /// The whole entry stored under `name`: its name, line and address.
    pub open spec fn entry(&self, name: Seq<char>) -> Option<LabelEntry> {
        find_entry(self.entries@, name)
    }

    pub fn new() -> (r: Self)
        ensures
            r@ == Map::<Seq<char>, Address>::empty(),
    {
        let r = LabelTable { entries: Vec::new() };
        assert(r@ =~= Map::<Seq<char>, Address>::empty());
        r
    }

    /// Stores `entry` under `name`, replacing what was stored there.
    pub fn insert(&mut self, name: String, entry: LabelEntry)
        ensures
            final(self)@ == old(self)@.insert(name@, entry.address),
            final(self).entry(name@) == Some(entry),
            forall|k: Seq<char>| k != name@ ==> final(self).entry(k) == old(self).entry(k),
    {
        let ghost key = name@;
        self.entries.push((name, entry));
        assert(self.entries@.drop_last() == old(self).entries@);
        assert(self@ =~= old(self)@.insert(key, entry.address));
    }

    fn position(&self, name: &str) -> (r: Option<usize>)
        ensures
            r is None <==> find_index(self.entries@, name@) == -1,
            r matches Some(i) ==> i == find_index(self.entries@, name@),
    {
        let mut i: usize = self.entries.len();
        assert(self.entries@.subrange(0, i as int) =~= self.entries@);
        while i > 0
            invariant
                i <= self.entries@.len(),
                find_index(self.entries@, name@) == find_index(self.entries@.subrange(0, i as int), name@),
            decreases i,
        {
            let ghost s = self.entries@.subrange(0, i as int);
            assert(s.drop_last() =~= self.entries@.subrange(0, i - 1));
            if same_text(self.entries[i - 1].0.as_str(), name) {
                return Some(i - 1);
            }
            i -= 1;
        }
        None
    }

    /// Whether entry `i` is the one that `name` finds.
    pub fn is_latest(&self, name: &str, i: usize) -> (r: bool)
        ensures
            r == (find_index(self.entries@, name@) == i),
    {
        match self.position(name) {
            Some(p) => p == i,
            None => false,
        }
    }

    pub fn contains_key(&self, name: &str) -> (r: bool)
        ensures
            r == self@.contains_key(name@),
    {
        proof {
            lemma_find_index(self.entries@, name@);
        }
        self.position(name).is_some()
    }

    /// The entry stored under `name`.
    pub fn get(&self, name: &str) -> (r: Option<&LabelEntry>)
        ensures
            r is Some <==> self@.contains_key(name@),
            r matches Some(e) ==> e.address == self@[name@] && Some(*e) == self.entry(name@),
    {
        proof {
            lemma_find_index(self.entries@, name@);
        }
        match self.position(name) {
            Some(i) => Some(&self.entries[i].1),
            None => None,
        }
    }

    /// Gives the entry stored under `name` a new address; `false` where there is none.
    pub fn set_address(&mut self, name: &str, address: Address) -> (r: bool)
        ensures
            r == old(self)@.contains_key(name@),
            r ==> final(self)@ == old(self)@.insert(name@, address),
            !r ==> final(self)@ == old(self)@,
    {
        proof {
            lemma_find_index(self.entries@, name@);
        }
        match self.position(name) {
            Some(i) => {
                let key = self.entries[i].0.clone();
                let entry_name = self.entries[i].1.name.clone();
                let line = self.entries[i].1.line;
                let entry = LabelEntry { name: entry_name, line, address };
                proof {
                    assert forall|k: Seq<char>|
                        find_entry(self.entries@.update(i as int, (key, entry)), k) == if k
                            == name@ {
                            Some(entry)
                        } else {
                            find_entry(self.entries@, k)
                        } by {
                        lemma_find_after_update(self.entries@, name@, entry, k);
                    }
                }
                self.entries.set(i, (key, entry));
                assert(self@ =~= old(self)@.insert(name@, address));
                true
            },
            None => false,
        }
    }
}

} // verus!
