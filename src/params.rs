//! Request parameter stores for path and query parameters.
//!
//! A store is an ordered table from parameter name to raw string value, with
//! each name at most once. Its model is a `Map` from name to value.
use crate::text::{append, owned, str_eq};
use vstd::prelude::*;

verus! {

/// The views of a list of name/value pairs.
pub open spec fn pair_views(s: Seq<(String, String)>) -> Seq<(Seq<char>, Seq<char>)> {
    s.map_values(|p: (String, String)| (p.0@, p.1@))
}

/// The map that a list of name/value pairs describes: entries are taken in
/// order and a later entry for a name replaces an earlier one.
pub open spec fn table_map(s: Seq<(Seq<char>, Seq<char>)>) -> Map<Seq<char>, Seq<char>>
    decreases s.len(),
{
    if s.len() == 0 {
        Map::empty()
    } else {
        table_map(s.drop_last()).insert(s.last().0, s.last().1)
    }
}

/// No name occurs twice in the list.
pub open spec fn distinct_names(s: Seq<(Seq<char>, Seq<char>)>) -> bool {
    forall|i: int, j: int| 0 <= i < j < s.len() ==> s[i].0 != s[j].0
}

/// The names of the list, in order.
pub open spec fn names_of(s: Seq<(Seq<char>, Seq<char>)>) -> Seq<Seq<char>> {
    s.map_values(|p: (Seq<char>, Seq<char>)| p.0)
}

/// A name is in the map exactly when some entry carries it.
pub proof fn lemma_table_dom(s: Seq<(Seq<char>, Seq<char>)>, k: Seq<char>)
    ensures
        table_map(s).contains_key(k) <==> exists|i: int| 0 <= i < s.len() && s[i].0 == k,
    decreases s.len(),
{
    if s.len() > 0 {
        lemma_table_dom(s.drop_last(), k);
        if table_map(s).contains_key(k) && s.last().0 != k {
            let i = choose|i: int| 0 <= i < s.drop_last().len() && s.drop_last()[i].0 == k;
            assert(s[i].0 == k);
        }
        if exists|i: int| 0 <= i < s.len() && s[i].0 == k {
            let i = choose|i: int| 0 <= i < s.len() && s[i].0 == k;
            if i < s.len() - 1 {
                assert(s.drop_last()[i].0 == k);
            }
        }
    }
}

/// With distinct names, the map gives each entry's own value.
pub proof fn lemma_table_value(s: Seq<(Seq<char>, Seq<char>)>, i: int)
    requires
        distinct_names(s),
        0 <= i < s.len(),
    ensures
        table_map(s).contains_key(s[i].0),
        table_map(s)[s[i].0] == s[i].1,
    decreases s.len(),
{
    if i < s.len() - 1 {
        let d = s.drop_last();
        assert(d[i] == s[i]);
        assert(distinct_names(d));
        lemma_table_value(d, i);
    }
}

/// Replacing the value of an entry replaces it in the map.
proof fn lemma_table_update(s: Seq<(Seq<char>, Seq<char>)>, i: int, v: Seq<char>)
    requires
        distinct_names(s),
        0 <= i < s.len(),
    ensures
        table_map(s.update(i, (s[i].0, v))) == table_map(s).insert(s[i].0, v),
    decreases s.len(),
{
    let k = s[i].0;
    let t = s.update(i, (k, v));
    if i == s.len() - 1 {
        assert(t.drop_last() =~= s.drop_last());
        assert(table_map(t) =~= table_map(s).insert(k, v));
    } else {
        let d = s.drop_last();
        assert(distinct_names(d));
        assert(t.drop_last() =~= d.update(i, (k, v)));
        lemma_table_update(d, i, v);
        assert(s.last().0 != k);
        assert(table_map(t) =~= table_map(s).insert(k, v));
    }
}

/// An ordered table of parameter names and raw values, each name once.
#[derive(Debug, Clone)]
pub struct ParamTable {
    entries: Vec<(String, String)>,
}

impl View for ParamTable {
    type V = Map<Seq<char>, Seq<char>>;

    open spec fn view(&self) -> Map<Seq<char>, Seq<char>> {
        table_map(self.entry_views())
    }
}

impl ParamTable {
    /// The entries' views, in insertion order.
    pub closed spec fn entry_views(&self) -> Seq<(Seq<char>, Seq<char>)> {
        pair_views(self.entries@)
    }

    /// The names of the table, in the order in which they were first added.
    pub open spec fn name_order(&self) -> Seq<Seq<char>> {
        names_of(self.entry_views())
    }

    /// Each name is present at most once.
    pub open spec fn wf(&self) -> bool {
        distinct_names(self.entry_views())
    }

    /// An empty table.
    pub fn empty() -> (r: Self)
        ensures
            r.wf(),
            r@ == Map::<Seq<char>, Seq<char>>::empty(),
            r.name_order() == Seq::<Seq<char>>::empty(),
    {
        let r = ParamTable { entries: Vec::new() };
        assert(r.entry_views() =~= Seq::<(Seq<char>, Seq<char>)>::empty());
        assert(r.name_order() =~= Seq::<Seq<char>>::empty());
        r
    }

    /// Position of the entry named `key`, if there is one.
    fn position(&self, key: &str) -> (r: Option<usize>)
        requires
            self.wf(),
        ensures
            match r {
                Some(i) => i < self.entries@.len() && self.entries@[i as int].0@ == key@,
                None => forall|j: int|
                    0 <= j < self.entries@.len() ==> self.entries@[j].0@ != key@,
            },
            r is None <==> !self@.contains_key(key@),
    {
        let mut i: usize = 0;
        while i < self.entries.len()
            invariant
                i <= self.entries@.len(),
                forall|j: int| 0 <= j < i ==> self.entries@[j].0@ != key@,
            decreases self.entries@.len() - i,
        {
            if str_eq(self.entries[i].0.as_str(), key) {
                proof {
                    assert(self.entry_views()[i as int].0 == key@);
                    lemma_table_dom(self.entry_views(), key@);
                }
                return Some(i);
            }
            i = i + 1;
        }
        proof {
            lemma_table_dom(self.entry_views(), key@);
            assert forall|j: int| 0 <= j < self.entry_views().len() implies self.entry_views()[j].0
                != key@ by {
                assert(self.entry_views()[j].0 == self.entries@[j].0@);
            }
        }
        None
    }

    /// Sets the value of `key`: a new name goes last, a known name keeps its
    /// place and gets the new value.
    pub fn insert(&mut self, key: String, value: String)
        requires
            old(self).wf(),
        ensures
            final(self).wf(),
            final(self)@ == old(self)@.insert(key@, value@),
            old(self)@.contains_key(key@) ==> final(self).name_order() == old(self).name_order(),
            !old(self)@.contains_key(key@) ==> final(self).name_order() == old(self).name_order().push(
                key@,
            ),
    {
        let ghost s = self.entry_views();
        match self.position(key.as_str()) {
            Some(i) => {
                proof {
                    lemma_table_update(s, i as int, value@);
                }
                self.entries.set(i, (key, value));
                proof {
                    assert(self.entry_views() =~= s.update(i as int, (s[i as int].0, value@)));
                    assert(self.name_order() =~= names_of(s));
                }
            },
            None => {
                self.entries.push((key, value));
                proof {
                    assert(self.entry_views() =~= s.push((key@, value@)));
                    assert(self.entry_views().drop_last() =~= s);
                    assert(self.name_order() =~= names_of(s).push(key@));
                }
            },
        }
    }

    /// A table holding the given pairs; a later pair for a name replaces the
    /// value of an earlier one.
    pub fn from_pairs(pairs: Vec<(String, String)>) -> (r: Self)
        ensures
            r.wf(),
            r@ == table_map(pair_views(pairs@)),
    {
        let mut t = ParamTable::empty();
        let mut i: usize = 0;
        while i < pairs.len()
            invariant
                i <= pairs@.len(),
                t.wf(),
                t@ == table_map(pair_views(pairs@).take(i as int)),
            decreases pairs@.len() - i,
        {
            let k = pairs[i].0.clone();
            let v = pairs[i].1.clone();
            t.insert(k, v);
            proof {
                let ps = pair_views(pairs@);
                assert(ps.take(i + 1).drop_last() =~= ps.take(i as int));
            }
            i = i + 1;
        }
        proof {
            assert(pair_views(pairs@).take(pairs@.len() as int) =~= pair_views(pairs@));
        }
        t
    }

    /// The raw value of `key`.
    pub fn get(&self, key: &str) -> (r: Option<&str>)
        requires
            self.wf(),
        ensures
            r is Some <==> self@.contains_key(key@),
            r matches Some(v) ==> v@ == self@[key@],
    {
        match self.position(key) {
            Some(i) => {
                proof {
                    assert(self.entry_views()[i as int].0 == key@);
                    lemma_table_value(self.entry_views(), i as int);
                }
                Some(self.entries[i].1.as_str())
            },
            None => None,
        }
    }

    /// The names of the table, in order.
    pub fn names(&self) -> (r: Vec<&str>)
        ensures
            r@.len() == self.name_order().len(),
            forall|i: int| 0 <= i < r@.len() ==> #[trigger] r@[i]@ == self.name_order()[i],
    {
        let mut out: Vec<&str> = Vec::new();
        let mut i: usize = 0;
        while i < self.entries.len()
            invariant
                i <= self.entries@.len(),
                out@.len() == i,
                forall|j: int| 0 <= j < i ==> #[trigger] out@[j]@ == self.name_order()[j],
            decreases self.entries@.len() - i,
        {
            out.push(self.entries[i].0.as_str());
            i = i + 1;
        }
        out
    }

    /// The names are exactly the keys of the model, each once.
    pub proof fn lemma_names(&self)
        requires
            self.wf(),
        ensures
            self.name_order().len() == self.entry_views().len(),
            forall|i: int, j: int|
                0 <= i < j < self.name_order().len() ==> self.name_order()[i]
                    != self.name_order()[j],
            forall|k: Seq<char>|
                self@.contains_key(k) <==> #[trigger] self.name_order().contains(k),
    {
        assert forall|k: Seq<char>| self@.contains_key(k) <==> #[trigger] self.name_order().contains(
            k,
        ) by {
            lemma_table_dom(self.entry_views(), k);
            if self.name_order().contains(k) {
                let i = choose|i: int| 0 <= i < self.name_order().len() && self.name_order()[i] == k;
                assert(self.entry_views()[i].0 == k);
            }
            if self@.contains_key(k) {
                let i = choose|i: int|
                    0 <= i < self.entry_views().len() && self.entry_views()[i].0 == k;
                assert(self.name_order()[i] == k);
            }
        }
    }
}

} // verus!

verus! {

/// The character is an ASCII decimal digit.
pub open spec fn is_digit(c: char) -> bool {
    '0' <= c <= '9'
}

/// Every character is a decimal digit.
pub open spec fn all_digits(s: Seq<char>) -> bool {
    forall|i: int| 0 <= i < s.len() ==> is_digit(#[trigger] s[i])
}

/// The value of a string of decimal digits.
pub open spec fn digits_value(s: Seq<char>) -> nat
    decreases s.len(),
{
    if s.len() == 0 {
        0
    } else {
        digits_value(s.drop_last()) * 10 + (s.last() as nat - '0' as nat) as nat
    }
}

/// The value of an optional `+` followed by one or more decimal digits, when
/// it is at most `max`; this is the format of Rust's unsigned integers.
pub open spec fn unsigned_value(s: Seq<char>, max: nat) -> Option<nat> {
    let body = if s.len() > 0 && s[0] == '+' {
        s.drop_first()
    } else {
        s
    };
    if body.len() > 0 && all_digits(body) && digits_value(body) <= max {
        Some(digits_value(body))
    } else {
        None
    }
}

/// The value of an optional `+` or `-` followed by one or more decimal
/// digits, when it lies in `min..=max`; the format of Rust's signed integers.
pub open spec fn signed_value(s: Seq<char>, min: int, max: int) -> Option<int> {
    if s.len() > 0 && s[0] == '-' {
        let body = s.drop_first();
        if body.len() > 0 && all_digits(body) && -digits_value(body) >= min {
            Some(-digits_value(body))
        } else {
            None
        }
    } else {
        match unsigned_value(s, max as nat) {
            Some(n) => if max >= 0 {
                Some(n as int)
            } else {
                None
            },
            None => None,
        }
    }
}

/// `true` and `false`, spelled exactly so; the format of Rust's `bool`.
pub open spec fn bool_value(s: Seq<char>) -> Option<bool> {
    if s == seq!['t', 'r', 'u', 'e'] {
        Some(true)
    } else if s == seq!['f', 'a', 'l', 's', 'e'] {
        Some(false)
    } else {
        None
    }
}

/// Relies on `str::parse::<u8>`: an optional `+` and decimal digits whose
/// value fits in `u8`.
#[verifier::external_body]
fn std_parse_u8(s: &str) -> (r: Option<u8>)
    ensures
        r == (match unsigned_value(s@, u8::MAX as nat) {
            Some(n) => Some(n as u8),
            None => None,
        }),
{
    s.parse::<u8>().ok()
}

/// Relies on `str::parse::<u16>`: an optional `+` and decimal digits whose
/// value fits in `u16`.
#[verifier::external_body]
fn std_parse_u16(s: &str) -> (r: Option<u16>)
    ensures
        r == (match unsigned_value(s@, u16::MAX as nat) {
            Some(n) => Some(n as u16),
            None => None,
        }),
{
    s.parse::<u16>().ok()
}

/// Relies on `str::parse::<u32>`: an optional `+` and decimal digits whose
/// value fits in `u32`.
#[verifier::external_body]
fn std_parse_u32(s: &str) -> (r: Option<u32>)
    ensures
        r == (match unsigned_value(s@, u32::MAX as nat) {
            Some(n) => Some(n as u32),
            None => None,
        }),
{
    s.parse::<u32>().ok()
}

/// Relies on `str::parse::<u64>`: an optional `+` and decimal digits whose
/// value fits in `u64`.
#[verifier::external_body]
fn std_parse_u64(s: &str) -> (r: Option<u64>)
    ensures
        r == (match unsigned_value(s@, u64::MAX as nat) {
            Some(n) => Some(n as u64),
            None => None,
        }),
{
    s.parse::<u64>().ok()
}

/// Relies on `str::parse::<u128>`: an optional `+` and decimal digits whose
/// value fits in `u128`.
#[verifier::external_body]
fn std_parse_u128(s: &str) -> (r: Option<u128>)
    ensures
        r == (match unsigned_value(s@, u128::MAX as nat) {
            Some(n) => Some(n as u128),
            None => None,
        }),
{
    s.parse::<u128>().ok()
}

/// Relies on `str::parse::<usize>`: an optional `+` and decimal digits whose
/// value fits in `usize`.
#[verifier::external_body]
fn std_parse_usize(s: &str) -> (r: Option<usize>)
    ensures
        r == (match unsigned_value(s@, usize::MAX as nat) {
            Some(n) => Some(n as usize),
            None => None,
        }),
{
    s.parse::<usize>().ok()
}

/// Relies on `str::parse::<i8>`: an optional sign and decimal digits whose
/// value fits in `i8`.
#[verifier::external_body]
fn std_parse_i8(s: &str) -> (r: Option<i8>)
    ensures
        r == (match signed_value(s@, i8::MIN as int, i8::MAX as int) {
            Some(n) => Some(n as i8),
            None => None,
        }),
{
    s.parse::<i8>().ok()
}

/// Relies on `str::parse::<i16>`: an optional sign and decimal digits whose
/// value fits in `i16`.
#[verifier::external_body]
fn std_parse_i16(s: &str) -> (r: Option<i16>)
    ensures
        r == (match signed_value(s@, i16::MIN as int, i16::MAX as int) {
            Some(n) => Some(n as i16),
            None => None,
        }),
{
    s.parse::<i16>().ok()
}

/// Relies on `str::parse::<i32>`: an optional sign and decimal digits whose
/// value fits in `i32`.
#[verifier::external_body]
fn std_parse_i32(s: &str) -> (r: Option<i32>)
    ensures
        r == (match signed_value(s@, i32::MIN as int, i32::MAX as int) {
            Some(n) => Some(n as i32),
            None => None,
        }),
{
    s.parse::<i32>().ok()
}

/// Relies on `str::parse::<i64>`: an optional sign and decimal digits whose
/// value fits in `i64`.
#[verifier::external_body]
fn std_parse_i64(s: &str) -> (r: Option<i64>)
    ensures
        r == (match signed_value(s@, i64::MIN as int, i64::MAX as int) {
            Some(n) => Some(n as i64),
            None => None,
        }),
{
    s.parse::<i64>().ok()
}

/// Relies on `str::parse::<i128>`: an optional sign and decimal digits whose
/// value fits in `i128`.
#[verifier::external_body]
fn std_parse_i128(s: &str) -> (r: Option<i128>)
    ensures
        r == (match signed_value(s@, i128::MIN as int, i128::MAX as int) {
            Some(n) => Some(n as i128),
            None => None,
        }),
{
    s.parse::<i128>().ok()
}

/// Relies on `str::parse::<isize>`: an optional sign and decimal digits whose
/// value fits in `isize`.
#[verifier::external_body]
fn std_parse_isize(s: &str) -> (r: Option<isize>)
    ensures
        r == (match signed_value(s@, isize::MIN as int, isize::MAX as int) {
            Some(n) => Some(n as isize),
            None => None,
        }),
{
    s.parse::<isize>().ok()
}

/// Relies on `str::parse::<bool>`: exactly `true` or `false`.
#[verifier::external_body]
fn std_parse_bool(s: &str) -> (r: Option<bool>)
    ensures
        r == bool_value(s@),
{
    s.parse::<bool>().ok()
}

/// A type that a raw parameter value can be read as.
pub trait ParamValue: Sized + View {
    /// The view of the value that the raw text `s` stands for, if it is well
    /// formed.
    spec fn parsed(s: Seq<char>) -> Option<Self::V>;

    /// The type's name, as a wrong-type error reports it.
    spec fn label() -> Seq<char>;

    /// Reads a raw parameter value.
    fn from_param(s: &str) -> (r: Option<Self>)
        ensures
            r is Some <==> Self::parsed(s@) is Some,
            r matches Some(v) ==> Self::parsed(s@) == Some(v@),
    ;

    /// The type's name, as a wrong-type error reports it.
    fn type_label() -> (r: &'static str)
        ensures
            r@ == Self::label(),
    ;
}

impl ParamValue for u8 {
    open spec fn parsed(s: Seq<char>) -> Option<u8> {
        match unsigned_value(s, u8::MAX as nat) {
            Some(n) => Some(n as u8),
            None => None,
        }
    }

    open spec fn label() -> Seq<char> {
        "u8"@
    }

    fn from_param(s: &str) -> (r: Option<u8>) {
        std_parse_u8(s)
    }

    fn type_label() -> (r: &'static str) {
        "u8"
    }
}

impl ParamValue for u16 {
    open spec fn parsed(s: Seq<char>) -> Option<u16> {
        match unsigned_value(s, u16::MAX as nat) {
            Some(n) => Some(n as u16),
            None => None,
        }
    }

    open spec fn label() -> Seq<char> {
        "u16"@
    }

    fn from_param(s: &str) -> (r: Option<u16>) {
        std_parse_u16(s)
    }

    fn type_label() -> (r: &'static str) {
        "u16"
    }
}

impl ParamValue for u32 {
    open spec fn parsed(s: Seq<char>) -> Option<u32> {
        match unsigned_value(s, u32::MAX as nat) {
            Some(n) => Some(n as u32),
            None => None,
        }
    }

    open spec fn label() -> Seq<char> {
        "u32"@
    }

    fn from_param(s: &str) -> (r: Option<u32>) {
        std_parse_u32(s)
    }

    fn type_label() -> (r: &'static str) {
        "u32"
    }
}

impl ParamValue for u64 {
    open spec fn parsed(s: Seq<char>) -> Option<u64> {
        match unsigned_value(s, u64::MAX as nat) {
            Some(n) => Some(n as u64),
            None => None,
        }
    }

    open spec fn label() -> Seq<char> {
        "u64"@
    }

    fn from_param(s: &str) -> (r: Option<u64>) {
        std_parse_u64(s)
    }

    fn type_label() -> (r: &'static str) {
        "u64"
    }
}

impl ParamValue for u128 {
    open spec fn parsed(s: Seq<char>) -> Option<u128> {
        match unsigned_value(s, u128::MAX as nat) {
            Some(n) => Some(n as u128),
            None => None,
        }
    }

    open spec fn label() -> Seq<char> {
        "u128"@
    }

    fn from_param(s: &str) -> (r: Option<u128>) {
        std_parse_u128(s)
    }

    fn type_label() -> (r: &'static str) {
        "u128"
    }
}

impl ParamValue for usize {
    open spec fn parsed(s: Seq<char>) -> Option<usize> {
        match unsigned_value(s, usize::MAX as nat) {
            Some(n) => Some(n as usize),
            None => None,
        }
    }

    open spec fn label() -> Seq<char> {
        "usize"@
    }

    fn from_param(s: &str) -> (r: Option<usize>) {
        std_parse_usize(s)
    }

    fn type_label() -> (r: &'static str) {
        "usize"
    }
}

impl ParamValue for i8 {
    open spec fn parsed(s: Seq<char>) -> Option<i8> {
        match signed_value(s, i8::MIN as int, i8::MAX as int) {
            Some(n) => Some(n as i8),
            None => None,
        }
    }

    open spec fn label() -> Seq<char> {
        "i8"@
    }

    fn from_param(s: &str) -> (r: Option<i8>) {
        std_parse_i8(s)
    }

    fn type_label() -> (r: &'static str) {
        "i8"
    }
}

impl ParamValue for i16 {
    open spec fn parsed(s: Seq<char>) -> Option<i16> {
        match signed_value(s, i16::MIN as int, i16::MAX as int) {
            Some(n) => Some(n as i16),
            None => None,
        }
    }

    open spec fn label() -> Seq<char> {
        "i16"@
    }

    fn from_param(s: &str) -> (r: Option<i16>) {
        std_parse_i16(s)
    }

    fn type_label() -> (r: &'static str) {
        "i16"
    }
}

impl ParamValue for i32 {
    open spec fn parsed(s: Seq<char>) -> Option<i32> {
        match signed_value(s, i32::MIN as int, i32::MAX as int) {
            Some(n) => Some(n as i32),
            None => None,
        }
    }

    open spec fn label() -> Seq<char> {
        "i32"@
    }

    fn from_param(s: &str) -> (r: Option<i32>) {
        std_parse_i32(s)
    }

    fn type_label() -> (r: &'static str) {
        "i32"
    }
}

impl ParamValue for i64 {
    open spec fn parsed(s: Seq<char>) -> Option<i64> {
        match signed_value(s, i64::MIN as int, i64::MAX as int) {
            Some(n) => Some(n as i64),
            None => None,
        }
    }

    open spec fn label() -> Seq<char> {
        "i64"@
    }

    fn from_param(s: &str) -> (r: Option<i64>) {
        std_parse_i64(s)
    }

    fn type_label() -> (r: &'static str) {
        "i64"
    }
}

impl ParamValue for i128 {
    open spec fn parsed(s: Seq<char>) -> Option<i128> {
        match signed_value(s, i128::MIN as int, i128::MAX as int) {
            Some(n) => Some(n as i128),
            None => None,
        }
    }

    open spec fn label() -> Seq<char> {
        "i128"@
    }

    fn from_param(s: &str) -> (r: Option<i128>) {
        std_parse_i128(s)
    }

    fn type_label() -> (r: &'static str) {
        "i128"
    }
}

impl ParamValue for isize {
    open spec fn parsed(s: Seq<char>) -> Option<isize> {
        match signed_value(s, isize::MIN as int, isize::MAX as int) {
            Some(n) => Some(n as isize),
            None => None,
        }
    }

    open spec fn label() -> Seq<char> {
        "isize"@
    }

    fn from_param(s: &str) -> (r: Option<isize>) {
        std_parse_isize(s)
    }

    fn type_label() -> (r: &'static str) {
        "isize"
    }
}

impl ParamValue for bool {
    open spec fn parsed(s: Seq<char>) -> Option<bool> {
        bool_value(s)
    }

    open spec fn label() -> Seq<char> {
        "bool"@
    }

    fn from_param(s: &str) -> (r: Option<bool>) {
        std_parse_bool(s)
    }

    fn type_label() -> (r: &'static str) {
        "bool"
    }
}

impl ParamValue for String {
    /// Every text is a well-formed `String`: itself.
    open spec fn parsed(s: Seq<char>) -> Option<Seq<char>> {
        Some(s)
    }

    open spec fn label() -> Seq<char> {
        "alloc::string::String"@
    }

    fn from_param(s: &str) -> (r: Option<String>) {
        Some(owned(s))
    }

    fn type_label() -> (r: &'static str) {
        "alloc::string::String"
    }
}

} // verus!

verus! {

/// The value that `key` holds in `m`, read as a `T`; `None` when the key is
/// absent or its raw text is not a well-formed `T`.
pub open spec fn read_as<T: ParamValue>(m: Map<Seq<char>, Seq<char>>, key: Seq<char>) -> Option<T::V> {
    if m.contains_key(key) {
        T::parsed(m[key])
    } else {
        None
    }
}

/// What went wrong when reading a parameter.
#[derive(Debug, Clone)]
pub enum ParamError {
    /// The parameter is not in the request.
    Missing(String),
    /// The parameter's raw value is not a well-formed value of the wanted type.
    InvalidType { key: String, value: String, expected: &'static str },
}

impl ParamError {
    /// A one-line account of the error, for people.
    pub fn to_message(&self) -> (r: String)
        ensures
            self matches ParamError::Missing(k) ==> r@ == "Missing parameter: "@ + k@,
            self matches ParamError::InvalidType { key, value, expected } ==> r@ == "Invalid parameter '"@
                + key@ + "': cannot parse '"@ + value@ + "' as "@ + expected@,
    {
        match self {
            ParamError::Missing(k) => {
                let mut r = owned("Missing parameter: ");
                append(&mut r, k.as_str());
                r
            },
            ParamError::InvalidType { key, value, expected } => {
                let mut r = owned("Invalid parameter '");
                append(&mut r, key.as_str());
                append(&mut r, "': cannot parse '");
                append(&mut r, value.as_str());
                append(&mut r, "' as ");
                append(&mut r, expected);
                r
            },
        }
    }
}


/// Parameters taken from the request path (`:id` in `/users/:id`).
#[derive(Debug)]
pub struct Path {
    params: ParamTable,
}

impl View for Path {
    type V = Map<Seq<char>, Seq<char>>;

    closed spec fn view(&self) -> Map<Seq<char>, Seq<char>> {
        self.params@
    }
}

impl Path {
    #[verifier::type_invariant]
    spec fn inv(&self) -> bool {
        self.params.wf()
    }

    /// The names of the parameters, in the order in which they were first given.
    pub closed spec fn name_order(&self) -> Seq<Seq<char>> {
        self.params.name_order()
    }

    /// Parameters from raw name/value pairs; a later pair for a name replaces
    /// an earlier one.
    pub fn new(params: Vec<(String, String)>) -> (r: Self)
        ensures
            r@ == table_map(pair_views(params@)),
    {
        Path { params: ParamTable::from_pairs(params) }
    }

    /// No parameters.
    pub fn empty() -> (r: Self)
        ensures
            r@ == Map::<Seq<char>, Seq<char>>::empty(),
    {
        Path { params: ParamTable::empty() }
    }

    /// The raw value of a parameter, without copying.
    pub fn get(&self, key: &str) -> (r: Option<&str>)
        ensures
            r is Some <==> self@.contains_key(key@),
            r matches Some(v) ==> v@ == self@[key@],
    {
        proof {
            use_type_invariant(self);
        }
        self.params.get(key)
    }

    /// The raw value of a parameter, as a new `String`.
    pub fn get_string(&self, key: &str) -> (r: Option<String>)
        ensures
            r is Some <==> self@.contains_key(key@),
            r matches Some(v) ==> v@ == self@[key@],
    {
        match self.get(key) {
            Some(v) => Some(owned(v)),
            None => None,
        }
    }

    /// Reads a parameter as a `T`, telling a missing parameter from one whose
    /// value is not a well-formed `T`.
    pub fn parse<T: ParamValue>(&self, key: &str) -> (r: Result<T, ParamError>)
        ensures
            !self@.contains_key(key@) <==> r matches Err(ParamError::Missing(_)),
            r matches Err(ParamError::Missing(k)) ==> k@ == key@,
            self@.contains_key(key@) && T::parsed(self@[key@]) is None <==> r matches Err(
                ParamError::InvalidType { .. },
            ),
            r matches Err(ParamError::InvalidType { key: k, value: v, expected: e }) ==> k@ == key@
                && v@ == self@[key@] && e@ == T::label(),
            r matches Ok(t) ==> self@.contains_key(key@) && T::parsed(self@[key@]) == Some(t@),
    {
        match self.get(key) {
            None => Err(ParamError::Missing(owned(key))),
            Some(v) => match T::from_param(v) {
                Some(t) => Ok(t),
                None => Err(
                    ParamError::InvalidType {
                        key: owned(key),
                        value: owned(v),
                        expected: T::type_label(),
                    },
                ),
            },
        }
    }

    /// Reads a parameter as a `T`; `None` when it is missing or malformed.
    fn get_as<T: ParamValue>(&self, key: &str) -> (r: Option<T>)
        ensures
            r is Some <==> read_as::<T>(self@, key@) is Some,
            r matches Some(v) ==> read_as::<T>(self@, key@) == Some(v@),
    {
        match self.get(key) {
            Some(v) => T::from_param(v),
            None => None,
        }
    }

    /// Reads a parameter as a `u64`; `None` when it is missing or malformed.
    pub fn get_u64(&self, key: &str) -> (r: Option<u64>)
        ensures
            r == read_as::<u64>(self@, key@),
    {
        self.get_as::<u64>(key)
    }

    /// Reads a parameter as a `i64`; `None` when it is missing or malformed.
    pub fn get_i64(&self, key: &str) -> (r: Option<i64>)
        ensures
            r == read_as::<i64>(self@, key@),
    {
        self.get_as::<i64>(key)
    }

    /// Reads a parameter as a `u32`; `None` when it is missing or malformed.
    pub fn get_u32(&self, key: &str) -> (r: Option<u32>)
        ensures
            r == read_as::<u32>(self@, key@),
    {
        self.get_as::<u32>(key)
    }

    /// Reads a parameter as a `i32`; `None` when it is missing or malformed.
    pub fn get_i32(&self, key: &str) -> (r: Option<i32>)
        ensures
            r == read_as::<i32>(self@, key@),
    {
        self.get_as::<i32>(key)
    }

    /// Reads a parameter as a `bool`; `None` when it is missing or malformed.
    pub fn get_bool(&self, key: &str) -> (r: Option<bool>)
        ensures
            r == read_as::<bool>(self@, key@),
    {
        self.get_as::<bool>(key)
    }

    /// Whether the parameter is present.
    pub fn contains(&self, key: &str) -> (r: bool)
        ensures
            r == self@.contains_key(key@),
    {
        self.get(key).is_some()
    }

    /// The names of all parameters, each once, in the order in which they
    /// were first given.
    pub fn keys(&self) -> (r: Vec<&str>)
        ensures
            r@.len() == self.name_order().len(),
            forall|i: int| 0 <= i < r@.len() ==> #[trigger] r@[i]@ == self.name_order()[i],
            forall|i: int, j: int|
                0 <= i < j < self.name_order().len() ==> self.name_order()[i]
                    != self.name_order()[j],
            forall|k: Seq<char>| self@.contains_key(k) <==> #[trigger] self.name_order().contains(k),
    {
        proof {
            use_type_invariant(self);
            self.params.lemma_names();
        }
        self.params.names()
    }
}

/// Parameters taken from the query string (`page` in `/users?page=2`).
#[derive(Debug)]
pub struct Query {
    params: ParamTable,
}

impl View for Query {
    type V = Map<Seq<char>, Seq<char>>;

    closed spec fn view(&self) -> Map<Seq<char>, Seq<char>> {
        self.params@
    }
}

impl Query {
    #[verifier::type_invariant]
    spec fn inv(&self) -> bool {
        self.params.wf()
    }

    /// The names of the parameters, in the order in which they were first given.
    pub closed spec fn name_order(&self) -> Seq<Seq<char>> {
        self.params.name_order()
    }

    /// Parameters from raw name/value pairs; a later pair for a name replaces
    /// an earlier one.
    pub fn new(params: Vec<(String, String)>) -> (r: Self)
        ensures
            r@ == table_map(pair_views(params@)),
    {
        Query { params: ParamTable::from_pairs(params) }
    }

    /// No parameters.
    pub fn empty() -> (r: Self)
        ensures
            r@ == Map::<Seq<char>, Seq<char>>::empty(),
    {
        Query { params: ParamTable::empty() }
    }

    /// The raw value of a parameter, without copying.
    pub fn get(&self, key: &str) -> (r: Option<&str>)
        ensures
            r is Some <==> self@.contains_key(key@),
            r matches Some(v) ==> v@ == self@[key@],
    {
        proof {
            use_type_invariant(self);
        }
        self.params.get(key)
    }

    /// The raw value of a parameter, as a new `String`.
    pub fn get_string(&self, key: &str) -> (r: Option<String>)
        ensures
            r is Some <==> self@.contains_key(key@),
            r matches Some(v) ==> v@ == self@[key@],
    {
        match self.get(key) {
            Some(v) => Some(owned(v)),
            None => None,
        }
    }

    /// Reads a parameter as a `T`, telling a missing parameter from one whose
    /// value is not a well-formed `T`.
    pub fn parse<T: ParamValue>(&self, key: &str) -> (r: Result<T, ParamError>)
        ensures
            !self@.contains_key(key@) <==> r matches Err(ParamError::Missing(_)),
            r matches Err(ParamError::Missing(k)) ==> k@ == key@,
            self@.contains_key(key@) && T::parsed(self@[key@]) is None <==> r matches Err(
                ParamError::InvalidType { .. },
            ),
            r matches Err(ParamError::InvalidType { key: k, value: v, expected: e }) ==> k@ == key@
                && v@ == self@[key@] && e@ == T::label(),
            r matches Ok(t) ==> self@.contains_key(key@) && T::parsed(self@[key@]) == Some(t@),
    {
        match self.get(key) {
            None => Err(ParamError::Missing(owned(key))),
            Some(v) => match T::from_param(v) {
                Some(t) => Ok(t),
                None => Err(
                    ParamError::InvalidType {
                        key: owned(key),
                        value: owned(v),
                        expected: T::type_label(),
                    },
                ),
            },
        }
    }

    /// Reads a parameter as a `T`; `None` when it is missing or malformed.
    fn get_as<T: ParamValue>(&self, key: &str) -> (r: Option<T>)
        ensures
            r is Some <==> read_as::<T>(self@, key@) is Some,
            r matches Some(v) ==> read_as::<T>(self@, key@) == Some(v@),
    {
        match self.get(key) {
            Some(v) => T::from_param(v),
            None => None,
        }
    }

    /// Reads a parameter as a `u64`; `None` when it is missing or malformed.
    pub fn get_u64(&self, key: &str) -> (r: Option<u64>)
        ensures
            r == read_as::<u64>(self@, key@),
    {
        self.get_as::<u64>(key)
    }

    /// Reads a parameter as a `i64`; `None` when it is missing or malformed.
    pub fn get_i64(&self, key: &str) -> (r: Option<i64>)
        ensures
            r == read_as::<i64>(self@, key@),
    {
        self.get_as::<i64>(key)
    }

    /// Reads a parameter as a `u32`; `None` when it is missing or malformed.
    pub fn get_u32(&self, key: &str) -> (r: Option<u32>)
        ensures
            r == read_as::<u32>(self@, key@),
    {
        self.get_as::<u32>(key)
    }

    /// Reads a parameter as a `i32`; `None` when it is missing or malformed.
    pub fn get_i32(&self, key: &str) -> (r: Option<i32>)
        ensures
            r == read_as::<i32>(self@, key@),
    {
        self.get_as::<i32>(key)
    }

    /// Reads a parameter as a `bool`; `None` when it is missing or malformed.
    pub fn get_bool(&self, key: &str) -> (r: Option<bool>)
        ensures
            r == read_as::<bool>(self@, key@),
    {
        self.get_as::<bool>(key)
    }

    /// Whether the parameter is present.
    pub fn contains(&self, key: &str) -> (r: bool)
        ensures
            r == self@.contains_key(key@),
    {
        self.get(key).is_some()
    }

    /// The names of all parameters, each once, in the order in which they
    /// were first given.
    pub fn keys(&self) -> (r: Vec<&str>)
        ensures
            r@.len() == self.name_order().len(),
            forall|i: int| 0 <= i < r@.len() ==> #[trigger] r@[i]@ == self.name_order()[i],
            forall|i: int, j: int|
                0 <= i < j < self.name_order().len() ==> self.name_order()[i]
                    != self.name_order()[j],
            forall|k: Seq<char>| self@.contains_key(k) <==> #[trigger] self.name_order().contains(k),
    {
        proof {
            use_type_invariant(self);
            self.params.lemma_names();
        }
        self.params.names()
    }
}

} // verus!
