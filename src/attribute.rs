//! The attribute store: values of a closed set of types under string keys,
//! read back only as the type they were stored as.

use vstd::prelude::*;

use crate::seal::Sealed;

verus! {

/// The type of a stored attribute.
#[derive(Clone, Copy, Debug, PartialEq, Eq)]
pub enum AttrKind {
    Bool,
    I32,
    I64,
    U32,
    U64,
    Usize,
    Text,
    Bytes,
}

/// A stored attribute value, tagged with its type.
#[derive(Clone, Debug)]
pub enum AttrValue {
    Bool(bool),
    I32(i32),
    I64(i64),
    U32(u32),
    U64(u64),
    Usize(usize),
    Text(String),
    Bytes(Vec<u8>),
}

/// The mathematical content of an [`AttrValue`].
pub enum AttrModel {
    Bool(bool),
    I32(i32),
    I64(i64),
    U32(u32),
    U64(u64),
    Usize(usize),
    Text(Seq<char>),
    Bytes(Seq<u8>),
}

impl AttrModel {
    pub open spec fn kind(self) -> AttrKind {
        match self {
            AttrModel::Bool(_) => AttrKind::Bool,
            AttrModel::I32(_) => AttrKind::I32,
            AttrModel::I64(_) => AttrKind::I64,
            AttrModel::U32(_) => AttrKind::U32,
            AttrModel::U64(_) => AttrKind::U64,
            AttrModel::Usize(_) => AttrKind::Usize,
            AttrModel::Text(_) => AttrKind::Text,
            AttrModel::Bytes(_) => AttrKind::Bytes,
        }
    }
}

impl View for AttrValue {
    type V = AttrModel;

    open spec fn view(&self) -> AttrModel {
        match self {
            AttrValue::Bool(v) => AttrModel::Bool(*v),
            AttrValue::I32(v) => AttrModel::I32(*v),
            AttrValue::I64(v) => AttrModel::I64(*v),
            AttrValue::U32(v) => AttrModel::U32(*v),
            AttrValue::U64(v) => AttrModel::U64(*v),
            AttrValue::Usize(v) => AttrModel::Usize(*v),
            AttrValue::Text(v) => AttrModel::Text(v@),
            AttrValue::Bytes(v) => AttrModel::Bytes(v@),
        }
    }
}

/// A type whose values can be stored as attributes and read back as that
/// same type.
///
/// Each tag of [`AttrKind`] belongs to exactly one type, so a value reads
/// back only as the type it was stored as. The trait is sealed: it is
/// implemented here, once per tag, and cannot be implemented elsewhere.
pub trait AnySendSyncClone: Sized + View + Sealed {
    /// The tag that values of this type are stored under.
    spec fn kind() -> AttrKind;

    /// How a value is stored.
    spec fn encode(v: Self::V) -> AttrModel;

    /// How a stored value reads back as this type: `None` for another type.
    spec fn decode(m: AttrModel) -> Option<Self::V>;

    /// A stored value reads back as itself, and carries this type's tag.
    proof fn lemma_encode(v: Self::V)
        ensures
            Self::decode(Self::encode(v)) == Some(v),
            Self::encode(v).kind() == Self::kind(),
    ;

    /// A stored value reads back as this type exactly when it carries this
    /// type's tag.
    proof fn lemma_decode(m: AttrModel)
        ensures
            Self::decode(m) is Some <==> m.kind() == Self::kind(),
    ;

    fn to_attr(&self) -> (r: AttrValue)
        ensures
            r@ == Self::encode(self@),
    ;

    fn from_attr(v: &AttrValue) -> (r: Option<Self>)
        ensures
            match r {
                Some(x) => Self::decode(v@) == Some(x@),
                None => Self::decode(v@) is None,
            },
    ;
}

impl AnySendSyncClone for bool {
    open spec fn kind() -> AttrKind {
        AttrKind::Bool
    }

    open spec fn encode(v: bool) -> AttrModel {
        AttrModel::Bool(v)
    }

    open spec fn decode(m: AttrModel) -> Option<bool> {
        match m {
            AttrModel::Bool(v) => Some(v),
            _ => None,
        }
    }

    proof fn lemma_encode(v: bool) {
    }

    proof fn lemma_decode(m: AttrModel) {
    }

    fn to_attr(&self) -> (r: AttrValue) {
        AttrValue::Bool(*self)
    }

    fn from_attr(v: &AttrValue) -> (r: Option<bool>) {
        match v {
            AttrValue::Bool(x) => Some(*x),
            _ => None,
        }
    }
}

impl AnySendSyncClone for i32 {
    open spec fn kind() -> AttrKind {
        AttrKind::I32
    }

    open spec fn encode(v: i32) -> AttrModel {
        AttrModel::I32(v)
    }

    open spec fn decode(m: AttrModel) -> Option<i32> {
        match m {
            AttrModel::I32(v) => Some(v),
            _ => None,
        }
    }

    proof fn lemma_encode(v: i32) {
    }

    proof fn lemma_decode(m: AttrModel) {
    }

    fn to_attr(&self) -> (r: AttrValue) {
        AttrValue::I32(*self)
    }

    fn from_attr(v: &AttrValue) -> (r: Option<i32>) {
        match v {
            AttrValue::I32(x) => Some(*x),
            _ => None,
        }
    }
}

impl AnySendSyncClone for i64 {
    open spec fn kind() -> AttrKind {
        AttrKind::I64
    }

    open spec fn encode(v: i64) -> AttrModel {
        AttrModel::I64(v)
    }

    open spec fn decode(m: AttrModel) -> Option<i64> {
        match m {
            AttrModel::I64(v) => Some(v),
            _ => None,
        }
    }

    proof fn lemma_encode(v: i64) {
    }

    proof fn lemma_decode(m: AttrModel) {
    }

    fn to_attr(&self) -> (r: AttrValue) {
        AttrValue::I64(*self)
    }

    fn from_attr(v: &AttrValue) -> (r: Option<i64>) {
        match v {
            AttrValue::I64(x) => Some(*x),
            _ => None,
        }
    }
}

impl AnySendSyncClone for u32 {
    open spec fn kind() -> AttrKind {
        AttrKind::U32
    }

    open spec fn encode(v: u32) -> AttrModel {
        AttrModel::U32(v)
    }

    open spec fn decode(m: AttrModel) -> Option<u32> {
        match m {
            AttrModel::U32(v) => Some(v),
            _ => None,
        }
    }

    proof fn lemma_encode(v: u32) {
    }

    proof fn lemma_decode(m: AttrModel) {
    }

    fn to_attr(&self) -> (r: AttrValue) {
        AttrValue::U32(*self)
    }

    fn from_attr(v: &AttrValue) -> (r: Option<u32>) {
        match v {
            AttrValue::U32(x) => Some(*x),
            _ => None,
        }
    }
}

impl AnySendSyncClone for u64 {
    open spec fn kind() -> AttrKind {
        AttrKind::U64
    }

    open spec fn encode(v: u64) -> AttrModel {
        AttrModel::U64(v)
    }

    open spec fn decode(m: AttrModel) -> Option<u64> {
        match m {
            AttrModel::U64(v) => Some(v),
            _ => None,
        }
    }

    proof fn lemma_encode(v: u64) {
    }

    proof fn lemma_decode(m: AttrModel) {
    }

    fn to_attr(&self) -> (r: AttrValue) {
        AttrValue::U64(*self)
    }

    fn from_attr(v: &AttrValue) -> (r: Option<u64>) {
        match v {
            AttrValue::U64(x) => Some(*x),
            _ => None,
        }
    }
}

impl AnySendSyncClone for usize {
    open spec fn kind() -> AttrKind {
        AttrKind::Usize
    }

    open spec fn encode(v: usize) -> AttrModel {
        AttrModel::Usize(v)
    }

    open spec fn decode(m: AttrModel) -> Option<usize> {
        match m {
            AttrModel::Usize(v) => Some(v),
            _ => None,
        }
    }

    proof fn lemma_encode(v: usize) {
    }

    proof fn lemma_decode(m: AttrModel) {
    }

    fn to_attr(&self) -> (r: AttrValue) {
        AttrValue::Usize(*self)
    }

    fn from_attr(v: &AttrValue) -> (r: Option<usize>) {
        match v {
            AttrValue::Usize(x) => Some(*x),
            _ => None,
        }
    }
}

impl AnySendSyncClone for String {
    open spec fn kind() -> AttrKind {
        AttrKind::Text
    }

    open spec fn encode(v: Seq<char>) -> AttrModel {
        AttrModel::Text(v)
    }

    open spec fn decode(m: AttrModel) -> Option<Seq<char>> {
        match m {
            AttrModel::Text(v) => Some(v),
            _ => None,
        }
    }

    proof fn lemma_encode(v: Seq<char>) {
    }

    proof fn lemma_decode(m: AttrModel) {
    }

    fn to_attr(&self) -> (r: AttrValue) {
        AttrValue::Text(self.clone())
    }

    fn from_attr(v: &AttrValue) -> (r: Option<String>) {
        match v {
            AttrValue::Text(x) => Some(x.clone()),
            _ => None,
        }
    }
}

impl AnySendSyncClone for Vec<u8> {
    open spec fn kind() -> AttrKind {
        AttrKind::Bytes
    }

    open spec fn encode(v: Seq<u8>) -> AttrModel {
        AttrModel::Bytes(v)
    }

    open spec fn decode(m: AttrModel) -> Option<Seq<u8>> {
        match m {
            AttrModel::Bytes(v) => Some(v),
            _ => None,
        }
    }

    proof fn lemma_encode(v: Seq<u8>) {
    }

    proof fn lemma_decode(m: AttrModel) {
    }

    fn to_attr(&self) -> (r: AttrValue) {
        AttrValue::Bytes(self.clone())
    }

    fn from_attr(v: &AttrValue) -> (r: Option<Vec<u8>>) {
        match v {
            AttrValue::Bytes(x) => Some(x.clone()),
            _ => None,
        }
    }
}

} // verus!

verus! {

/// Whether no two entries share a key.
pub open spec fn keys_unique(s: Seq<(String, AttrValue)>) -> bool {
    forall|i: int, j: int|
        0 <= i < s.len() && 0 <= j < s.len() && i != j ==> #[trigger] s[i].0@ != #[trigger] s[j].0@
}

/// The map from key to value that a sequence of entries holds.
pub open spec fn entries_map(s: Seq<(String, AttrValue)>) -> Map<Seq<char>, AttrModel>
    decreases s.len(),
{
    if s.len() == 0 {
        Map::empty()
    } else {
        entries_map(s.drop_last()).insert(s.last().0@, s.last().1@)
    }
}

proof fn lemma_entries_domain(s: Seq<(String, AttrValue)>, k: Seq<char>)
    ensures
        entries_map(s).contains_key(k) <==> exists|i: int| 0 <= i < s.len() && s[i].0@ == k,
    decreases s.len(),
{
    if s.len() > 0 {
        let p = s.drop_last();
        lemma_entries_domain(p, k);
        if entries_map(s).contains_key(k) && k != s.last().0@ {
            let i = choose|i: int| 0 <= i < p.len() && p[i].0@ == k;
            assert(s[i] == p[i]);
        }
        if exists|i: int| 0 <= i < s.len() && s[i].0@ == k {
            let i = choose|i: int| 0 <= i < s.len() && s[i].0@ == k;
            if i < s.len() - 1 {
                assert(p[i] == s[i]);
            }
        }
    }
}

proof fn lemma_entries_value(s: Seq<(String, AttrValue)>, i: int)
    requires
        keys_unique(s),
        0 <= i < s.len(),
    ensures
        entries_map(s).contains_key(s[i].0@),
        entries_map(s)[s[i].0@] == s[i].1@,
    decreases s.len(),
{
    if i < s.len() - 1 {
        let p = s.drop_last();
        assert(p[i] == s[i]);
        assert(keys_unique(p)) by {
            assert forall|a: int, b: int|
                0 <= a < p.len() && 0 <= b < p.len() && a != b implies #[trigger] p[a].0@
                != #[trigger] p[b].0@ by {
                assert(p[a] == s[a] && p[b] == s[b]);
            }
        }
        lemma_entries_value(p, i);
        assert(s[i].0@ != s[s.len() - 1].0@);
    }
}

/// A sequence of entries with unique keys holds `m` when its keys are the
/// keys of `m` and each entry's value is the one `m` gives its key.
proof fn lemma_entries_are(s: Seq<(String, AttrValue)>, m: Map<Seq<char>, AttrModel>)
    requires
        keys_unique(s),
        forall|k: Seq<char>|
            #[trigger] m.contains_key(k) <==> exists|i: int| 0 <= i < s.len() && s[i].0@ == k,
        forall|i: int| 0 <= i < s.len() ==> m[#[trigger] s[i].0@] == s[i].1@,
    ensures
        entries_map(s) == m,
{
    assert forall|k: Seq<char>| #[trigger] entries_map(s).contains_key(k) <==> m.contains_key(k) by {
        lemma_entries_domain(s, k);
    }
    assert forall|k: Seq<char>| #[trigger] entries_map(s).contains_key(k) implies entries_map(s)[k]
        == m[k] by {
        lemma_entries_domain(s, k);
        let i = choose|i: int| 0 <= i < s.len() && s[i].0@ == k;
        lemma_entries_value(s, i);
    }
    assert(entries_map(s) =~= m);
}

/// Values of several types under string keys, at most one value per key.
#[derive(Clone, Debug)]
pub struct AttributeStore {
    entries: Vec<(String, AttrValue)>,
}

impl View for AttributeStore {
    type V = Map<Seq<char>, AttrModel>;

    closed spec fn view(&self) -> Map<Seq<char>, AttrModel> {
        entries_map(self.entries@)
    }
}

/// What reading `key` of `m` as type `T` yields.
pub open spec fn read_as<T: AnySendSyncClone>(m: Map<Seq<char>, AttrModel>, key: Seq<char>) -> Option<
    T::V,
> {
    if m.contains_key(key) {
        T::decode(m[key])
    } else {
        None
    }
}

impl AttributeStore {
    /// Well-formed: no two entries share a key.
    pub closed spec fn wf(&self) -> bool {
        keys_unique(self.entries@)
    }

    /// The empty store.
    pub fn new() -> (r: AttributeStore)
        ensures
            r.wf(),
            r@ == Map::<Seq<char>, AttrModel>::empty(),
    {
        AttributeStore { entries: Vec::new() }
    }

    fn find(&self, key: &String) -> (r: Option<usize>)
        ensures
            match r {
                Some(i) => i < self.entries@.len() && self.entries@[i as int].0@ == key@,
                None => forall|i: int|
                    0 <= i < self.entries@.len() ==> #[trigger] self.entries@[i].0@ != key@,
            },
    {
        let mut i: usize = 0;
        while i < self.entries.len()
            invariant
                i <= self.entries@.len(),
                forall|j: int| 0 <= j < i ==> #[trigger] self.entries@[j].0@ != key@,
            decreases self.entries@.len() - i,
        {
            if self.entries[i].0 == *key {
                return Some(i);
            }
            i = i + 1;
        }
        None
    }

    /// Whether a value is stored under `key`.
    pub fn contains(&self, key: &str) -> (r: bool)
        requires
            self.wf(),
        ensures
            r == self@.contains_key(key@),
    {
        let k = key.to_owned();
        proof {
            lemma_entries_domain(self.entries@, k@);
        }
        match self.find(&k) {
            Some(_) => true,
            None => false,
        }
    }

    /// Stores `value` under `key`, replacing what was there.
    pub fn set<T: AnySendSyncClone>(&mut self, key: &str, value: &T)
        requires
            old(self).wf(),
        ensures
            final(self).wf(),
            final(self)@ == old(self)@.insert(key@, T::encode(value@)),
    {
        let k = key.to_owned();
        let v = value.to_attr();
        let ghost s0 = self.entries@;
        let ghost m = entries_map(s0).insert(k@, v@);
        match self.find(&k) {
            Some(i) => {
                self.entries.set(i, (k, v));
                proof {
                    let s = self.entries@;
                    assert(keys_unique(s)) by {
                        assert forall|a: int, b: int|
                            0 <= a < s.len() && 0 <= b < s.len() && a != b implies #[trigger] s[a].0@
                            != #[trigger] s[b].0@ by {
                            assert(s0[a].0@ != s0[b].0@);
                        }
                    }
                    assert forall|key2: Seq<char>| #[trigger]
                        m.contains_key(key2) <==> exists|j: int| 0 <= j < s.len() && s[j].0@ == key2 by {
                        lemma_entries_domain(s0, key2);
                        if exists|j: int| 0 <= j < s0.len() && s0[j].0@ == key2 {
                            let j = choose|j: int| 0 <= j < s0.len() && s0[j].0@ == key2;
                            assert(s[j].0@ == key2);
                        }
                        if key2 == k@ {
                            assert(s[i as int].0@ == key2);
                        }
                    }
                    assert forall|j: int| 0 <= j < s.len() implies m[#[trigger] s[j].0@] == s[j].1@ by {
                        if j != i {
                            lemma_entries_value(s0, j);
                            assert(s0[j].0@ != s0[i as int].0@);
                        }
                    }
                    lemma_entries_are(s, m);
                }
            },
            None => {
                self.entries.push((k, v));
                proof {
                    let s = self.entries@;
                    assert(s.drop_last() == s0);
                    assert(keys_unique(s)) by {
                        assert forall|a: int, b: int|
                            0 <= a < s.len() && 0 <= b < s.len() && a != b implies #[trigger] s[a].0@
                            != #[trigger] s[b].0@ by {
                            if a < s0.len() && b < s0.len() {
                                assert(s0[a].0@ != s0[b].0@);
                            } else if a < s0.len() {
                                assert(s0[a].0@ != k@);
                            } else {
                                assert(s0[b].0@ != k@);
                            }
                        }
                    }
                }
            },
        }
    }

    /// The value stored under `key`, read as type `T`: `None` where nothing
    /// is stored there, or where what is stored is of another type.
    pub fn get<T: AnySendSyncClone>(&self, key: &str) -> (r: Option<T>)
        requires
            self.wf(),
        ensures
            match r {
                Some(x) => read_as::<T>(self@, key@) == Some(x@),
                None => read_as::<T>(self@, key@) is None,
            },
    {
        let k = key.to_owned();
        proof {
            lemma_entries_domain(self.entries@, k@);
        }
        match self.find(&k) {
            Some(i) => {
                proof {
                    lemma_entries_value(self.entries@, i as int);
                }
                T::from_attr(&self.entries[i].1)
            },
            None => None,
        }
    }

    /// Removes what is stored under `key`, if anything.
    pub fn remove(&mut self, key: &str)
        requires
            old(self).wf(),
        ensures
            final(self).wf(),
            final(self)@ == old(self)@.remove(key@),
    {
        let k = key.to_owned();
        let ghost s0 = self.entries@;
        let ghost m = entries_map(s0).remove(k@);
        match self.find(&k) {
            Some(i) => {
                self.entries.remove(i);
                proof {
                    let s = self.entries@;
                    assert forall|j: int| 0 <= j < s.len() implies #[trigger] s[j] == (if j < i {
                        s0[j]
                    } else {
                        s0[j + 1]
                    }) by {}
                    assert(keys_unique(s)) by {
                        assert forall|a: int, b: int|
                            0 <= a < s.len() && 0 <= b < s.len() && a != b implies #[trigger] s[a].0@
                            != #[trigger] s[b].0@ by {
                            let a0 = if a < i { a } else { a + 1 };
                            let b0 = if b < i { b } else { b + 1 };
                            assert(s0[a0].0@ != s0[b0].0@);
                        }
                    }
                    assert forall|key2: Seq<char>| #[trigger]
                        m.contains_key(key2) <==> exists|j: int| 0 <= j < s.len() && s[j].0@ == key2 by {
                        lemma_entries_domain(s0, key2);
                        if m.contains_key(key2) {
                            let j = choose|j: int| 0 <= j < s0.len() && s0[j].0@ == key2;
                            assert(j != i);
                            let j1 = if j < i { j } else { j - 1 };
                            assert(s[j1].0@ == key2);
                        }
                        if exists|j: int| 0 <= j < s.len() && s[j].0@ == key2 {
                            let j = choose|j: int| 0 <= j < s.len() && s[j].0@ == key2;
                            let j0 = if j < i { j } else { j + 1 };
                            assert(s0[j0].0@ == key2);
                            assert(s0[j0].0@ != s0[i as int].0@);
                        }
                    }
                    assert forall|j: int| 0 <= j < s.len() implies m[#[trigger] s[j].0@] == s[j].1@ by {
                        let j0 = if j < i { j } else { j + 1 };
                        lemma_entries_value(s0, j0);
                        assert(s0[j0].0@ != s0[i as int].0@);
                    }
                    lemma_entries_are(s, m);
                }
            },
            None => {
                proof {
                    lemma_entries_domain(s0, k@);
                    assert(entries_map(s0).remove(k@) =~= entries_map(s0));
                }
            },
        }
    }

    /// Removes everything.
    pub fn clear(&mut self)
        ensures
            final(self).wf(),
            final(self)@ == Map::<Seq<char>, AttrModel>::empty(),
    {
        self.entries.clear();
    }
}

} // verus!

verus! {

/// Storing `v` under `key` and reading `key` back as the type it was stored
/// as yields `v`; reading it back as a type with another tag yields nothing.
pub proof fn lemma_attribute_round_trip<T: AnySendSyncClone, U: AnySendSyncClone>(
    m: Map<Seq<char>, AttrModel>,
    key: Seq<char>,
    v: T::V,
)
    ensures
        read_as::<T>(m.insert(key, T::encode(v)), key) == Some(v),
        U::kind() != T::kind() ==> read_as::<U>(m.insert(key, T::encode(v)), key) is None,
{
    T::lemma_encode(v);
    U::lemma_decode(T::encode(v));
}

} // verus!
