//! Field matching for payload records whose keys are renamed at run time.
//!
//! A payload is stored as a map whose keys are record ids (such as
//! `thing:name-en`) rather than field names. A [`FieldSet`] lists, for each
//! field in declaration order, the key that selects it and the label used in
//! error messages, and decodes a map or a sequence into one value per field.

use vstd::prelude::*;

verus! {

/// The first index `t` in `[i, end)` where `pred` holds.
pub open spec fn first_where(pred: spec_fn(int) -> bool, i: int, end: int) -> Option<int>
    decreases end - i,
{
    if i >= end {
        None
    } else if pred(i) {
        Some(i)
    } else {
        first_where(pred, i + 1, end)
    }
}

pub proof fn lemma_first_where(pred: spec_fn(int) -> bool, i: int, end: int)
    ensures
        match first_where(pred, i, end) {
            Some(j) => i <= j < end && pred(j) && forall|t: int| i <= t < j ==> !#[trigger] pred(t),
            None => forall|t: int| i <= t < end ==> !#[trigger] pred(t),
        },
    decreases end - i,
{
    if i < end && !pred(i) {
        lemma_first_where(pred, i + 1, end);
    }
}

/// The first index `t >= i` with `keys[t] == k`.
pub open spec fn find_key(keys: Seq<Seq<char>>, k: Seq<char>, i: int) -> Option<int>
    decreases keys.len() - i,
{
    if i < 0 || i >= keys.len() {
        None
    } else if keys[i] == k {
        Some(i)
    } else {
        find_key(keys, k, i + 1)
    }
}

pub proof fn lemma_find_key(keys: Seq<Seq<char>>, k: Seq<char>, i: int)
    requires
        0 <= i,
    ensures
        match find_key(keys, k, i) {
            Some(j) => i <= j < keys.len() && keys[j] == k && forall|t: int|
                i <= t < j ==> keys[t] != k,
            None => forall|t: int| i <= t < keys.len() ==> keys[t] != k,
        },
    decreases keys.len() - i,
{
    if i < keys.len() && keys[i] != k {
        lemma_find_key(keys, k, i + 1);
    }
}

/// What a field identifier in the input names.
#[derive(Clone, Copy, PartialEq, Eq, Structural, Debug)]
pub enum FieldKey {
    Field(usize),
    Ignore,
}

/// Why a payload could not be decoded.
#[derive(Debug)]
pub enum PayloadError {
    /// A key that names no field, in a strict field set.
    UnknownField { key: String },
    /// A field index out of range, in a strict field set.
    InvalidIndex { value: u64 },
    /// A field was given twice; the label is that field's.
    DuplicateField { label: String },
    /// A field was not given; the label is that field's.
    MissingField { label: String },
    /// A sequence ended early.
    InvalidLength { index: usize },
}

/// The fields of a payload, in declaration order.
///
/// A lenient set ignores keys that name no field and numbers its fields from 0;
/// a strict set rejects unknown keys and numbers its fields from 1.
#[derive(Debug)]
pub struct FieldSet {
    pub keys: Vec<String>,
    pub labels: Vec<String>,
    pub strict: bool,
}

/// The texts of the keys of a list of entries.
pub open spec fn entry_keys<V>(entries: Seq<(String, V)>) -> Seq<Seq<char>> {
    entries.map_values(|e: (String, V)| e.0@)
}

/// The meaning of a [`FieldSet`]: the keys and labels as texts, and strictness.
pub struct FieldModel {
    pub keys: Seq<Seq<char>>,
    pub labels: Seq<Seq<char>>,
    pub strict: bool,
}

impl FieldModel {

    /// The field a key selects: the first field whose key it is.
    pub open spec fn field_of(&self, k: Seq<char>) -> Option<int> {
        find_key(self.keys, k, 0)
    }

    /// Position `p` of `ks` names a field that an earlier position already named.
    pub open spec fn is_dup(&self, ks: Seq<Seq<char>>, p: int) -> bool {
        &&& self.field_of(ks[p]) is Some
        &&& exists|q: int| 0 <= q < p && self.field_of(ks[q]) == self.field_of(ks[p])
    }

    /// Position `p` of `ks` stops the decoding.
    pub open spec fn is_bad(&self, ks: Seq<Seq<char>>, p: int) -> bool {
        (self.strict && self.field_of(ks[p]) is None) || self.is_dup(ks, p)
    }

    pub open spec fn first_bad(&self, ks: Seq<Seq<char>>) -> Option<int> {
        first_where(|p: int| self.is_bad(ks, p), 0, ks.len() as int)
    }

    /// Some position of `ks` names field `i`.
    pub open spec fn is_present(&self, ks: Seq<Seq<char>>, i: int) -> bool {
        exists|p: int| 0 <= p < ks.len() && self.field_of(ks[p]) == Some(i)
    }

    pub open spec fn first_missing(&self, ks: Seq<Seq<char>>) -> Option<int> {
        first_where(|i: int| !self.is_present(ks, i), 0, self.keys.len() as int)
    }

    pub proof fn lemma_field_of(&self, k: Seq<char>)
        ensures
            match self.field_of(k) {
                Some(i) => 0 <= i < self.keys.len() && self.keys[i] == k && forall|t: int|
                    0 <= t < i ==> self.keys[t] != k,
                None => forall|t: int| 0 <= t < self.keys.len() ==> self.keys[t] != k,
            },
    {
        lemma_find_key(self.keys, k, 0);
    }

    pub proof fn lemma_first_bad(&self, ks: Seq<Seq<char>>)
        ensures
            match self.first_bad(ks) {
                Some(p) => 0 <= p < ks.len() && self.is_bad(ks, p) && forall|q: int|
                    0 <= q < p ==> !#[trigger] self.is_bad(ks, q),
                None => forall|q: int| 0 <= q < ks.len() ==> !#[trigger] self.is_bad(ks, q),
            },
    {
        let pred = |p: int| self.is_bad(ks, p);
        lemma_first_where(pred, 0, ks.len() as int);
        assert forall|q: int| pred(q) == self.is_bad(ks, q) by {}
    }

    pub proof fn lemma_first_missing(&self, ks: Seq<Seq<char>>)
        ensures
            match self.first_missing(ks) {
                Some(i) => 0 <= i < self.keys.len() && !self.is_present(ks, i) && forall|t: int|
                    0 <= t < i ==> #[trigger] self.is_present(ks, t),
                None => forall|t: int| 0 <= t < self.keys.len() ==> #[trigger] self.is_present(ks, t),
            },
    {
        let pred = |i: int| !self.is_present(ks, i);
        lemma_first_where(pred, 0, self.keys.len() as int);
        assert forall|t: int| pred(t) == !self.is_present(ks, t) by {}
    }

    /// Each field's value is the value of an entry whose key selects that field.
    pub open spec fn values_match<V>(&self, entries: Seq<(String, V)>, vals: Seq<V>) -> bool {
        &&& vals.len() == self.keys.len()
        &&& forall|i: int| 0 <= i < vals.len() ==> #[trigger] self.is_value_of(entries, i, vals[i])
    }

    /// `v` is the value of an entry whose key selects field `i`.
    pub open spec fn is_value_of<V>(&self, entries: Seq<(String, V)>, i: int, v: V) -> bool {
        exists|p: int|
            0 <= p < entries.len() && #[trigger] self.field_of(entry_keys(entries)[p]) == Some(i)
                && v == entries[p].1
    }

    /// What decoding `entries` as a map gives: `r` is the error at the first
    /// position that stops the decoding, else the first missing field's error,
    /// else the values of the fields.
    pub open spec fn decoded_map<V>(&self, entries: Seq<(String, V)>, r: Result<Seq<V>, PayloadError>) -> bool {
        let ks = entry_keys(entries);
        match self.first_bad(ks) {
            Some(p) => match self.field_of(ks[p]) {
                None => r matches Err(PayloadError::UnknownField { key }) && key@ == ks[p],
                Some(i) => r matches Err(PayloadError::DuplicateField { label }) && label@
                    == self.labels[i],
            },
            None => match self.first_missing(ks) {
                Some(i) => r matches Err(PayloadError::MissingField { label }) && label@
                    == self.labels[i],
                None => r matches Ok(vals) && self.values_match(entries, vals),
            },
        }
    }
}

/// A decoding result with its values as a sequence.
pub open spec fn seq_result<V>(r: Result<Vec<V>, PayloadError>) -> Result<Seq<V>, PayloadError> {
    match r {
        Ok(v) => Ok(v@),
        Err(e) => Err(e),
    }
}

/// Decoding a map key by key: which fields have been given so far.
#[derive(Debug)]
pub struct MapDecoder {
    pub seen: Vec<bool>,
}

impl FieldSet {
    pub open spec fn wf(&self) -> bool {
        self.keys.len() == self.labels.len()
    }

    pub open spec fn model(&self) -> FieldModel {
        FieldModel { keys: self.keys.deep_view(), labels: self.labels.deep_view(), strict: self.strict }
    }

    /// Identifies a field by its key. An unknown key is ignored, or rejected by a strict set.
    pub fn identify_str(&self, key: &String) -> (r: Result<FieldKey, PayloadError>)
        ensures
            match self.model().field_of(key@) {
                Some(i) => r == Ok::<FieldKey, PayloadError>(FieldKey::Field(i as usize)),
                None => if self.strict {
                    r matches Err(PayloadError::UnknownField { key: k }) && k@ == key@
                } else {
                    r == Ok::<FieldKey, PayloadError>(FieldKey::Ignore)
                },
            },
    {
        let n = self.keys.len();
        let mut i: usize = 0;
        while i < n
            invariant
                n == self.keys.len(),
                i <= n,
                forall|t: int| 0 <= t < i ==> self.model().keys[t] != key@,
            decreases n - i,
        {
            if self.keys[i] == *key {
                proof {
                    assert(self.model().keys[i as int] == self.keys@[i as int]@);
                    self.model().lemma_field_of(key@);
                }
                return Ok(FieldKey::Field(i));
            }
            i = i + 1;
        }
        proof {
            self.model().lemma_field_of(key@);
        }
        if self.strict {
            Err(PayloadError::UnknownField { key: key.clone() })
        } else {
            Ok(FieldKey::Ignore)
        }
    }

    /// Identifies a field by its number. A lenient set numbers fields from 0 and
    /// ignores other numbers; a strict set numbers them from 1 and rejects others.
    pub fn identify_u64(&self, v: u64) -> (r: Result<FieldKey, PayloadError>)
        ensures
            if self.strict {
                if 1 <= v <= self.keys.len() {
                    r == Ok::<FieldKey, PayloadError>(FieldKey::Field((v - 1) as usize))
                } else {
                    r matches Err(PayloadError::InvalidIndex { value }) && value == v
                }
            } else {
                if v < self.keys.len() {
                    r == Ok::<FieldKey, PayloadError>(FieldKey::Field(v as usize))
                } else {
                    r == Ok::<FieldKey, PayloadError>(FieldKey::Ignore)
                }
            },
    {
        let n = self.keys.len();
        if self.strict {
            if 1 <= v && v <= n as u64 {
                Ok(FieldKey::Field((v - 1) as usize))
            } else {
                Err(PayloadError::InvalidIndex { value: v })
            }
        } else {
            if v < n as u64 {
                Ok(FieldKey::Field(v as usize))
            } else {
                Ok(FieldKey::Ignore)
            }
        }
    }

    /// A lenient field set whose keys are also its labels.
    pub fn lenient(keys: Vec<String>) -> (r: FieldSet)
        ensures
            r.wf(),
            r.keys.deep_view() == keys.deep_view(),
            r.labels.deep_view() == keys.deep_view(),
            !r.strict,
    {
        let n = keys.len();
        let mut labels: Vec<String> = Vec::new();
        let mut i: usize = 0;
        while i < n
            invariant
                n == keys.len(),
                i <= n,
                labels@.len() == i,
                labels.deep_view() == keys.deep_view().take(i as int),
            decreases n - i,
        {
            let ghost before = labels.deep_view();
            let k = keys[i].clone();
            labels.push(k);
            assert(labels.deep_view() =~= before.push(k@));
            assert(keys.deep_view().take(i + 1) =~= keys.deep_view().take(i as int).push(
                keys.deep_view()[i as int],
            ));
            i = i + 1;
        }
        assert(keys.deep_view().take(n as int) =~= keys.deep_view());
        FieldSet { keys, labels, strict: false }
    }

    /// The start of decoding a map: no field given yet.
    pub fn start_map(&self) -> (r: MapDecoder)
        ensures
            r.seen@.len() == self.keys@.len(),
            forall|i: int| 0 <= i < r.seen@.len() ==> !r.seen@[i],
    {
        let n = self.keys.len();
        let mut seen: Vec<bool> = Vec::new();
        let mut i: usize = 0;
        while i < n
            invariant
                n == self.keys@.len(),
                i <= n,
                seen@.len() == i,
                forall|t: int| 0 <= t < i ==> !seen@[t],
            decreases n - i,
        {
            seen.push(false);
            i = i + 1;
        }
        MapDecoder { seen }
    }

    /// Takes the next key of a map, already identified: a key that names no
    /// field is skipped; a field given a second time is an error, labelled
    /// with the field's label; otherwise the field is given now, and its value
    /// is the entry's.
    pub fn next_field(&self, dec: &mut MapDecoder, key: FieldKey) -> (r: Result<Option<usize>, PayloadError>)
        requires
            self.wf(),
            old(dec).seen@.len() == self.keys@.len(),
            key matches FieldKey::Field(i) ==> i < self.keys@.len(),
        ensures
            final(dec).seen@.len() == old(dec).seen@.len(),
            match key {
                FieldKey::Ignore => r == Ok::<Option<usize>, PayloadError>(None) && final(dec).seen@
                    == old(dec).seen@,
                FieldKey::Field(i) => if old(dec).seen@[i as int] {
                    (r matches Err(PayloadError::DuplicateField { label }) && label@ == self.labels@[i as int]@)
                        && final(dec).seen@ == old(dec).seen@
                } else {
                    r == Ok::<Option<usize>, PayloadError>(Some(i)) && final(dec).seen@ == old(dec).seen@.update(
                        i as int,
                        true,
                    )
                },
            },
    {
        match key {
            FieldKey::Ignore => Ok(None),
            FieldKey::Field(i) => {
                if dec.seen[i] {
                    Err(PayloadError::DuplicateField { label: self.labels[i].clone() })
                } else {
                    dec.seen.set(i, true);
                    Ok(Some(i))
                }
            },
        }
    }

    /// The end of decoding a map: every field must have been given; else the
    /// first missing one, in declaration order, is the error.
    pub fn end_map(&self, dec: &MapDecoder) -> (r: Result<(), PayloadError>)
        requires
            self.wf(),
            dec.seen@.len() == self.keys@.len(),
        ensures
            r is Ok <==> forall|i: int| 0 <= i < dec.seen@.len() ==> dec.seen@[i],
            r matches Err(e) ==> exists|i: int|
                0 <= i < dec.seen@.len() && !dec.seen@[i] && (forall|j: int| 0 <= j < i ==> dec.seen@[j]) && (
                e matches PayloadError::MissingField { label } && label@ == self.labels@[i]@),
    {
        let n = dec.seen.len();
        let mut i: usize = 0;
        while i < n
            invariant
                n == dec.seen@.len(),
                n == self.labels@.len(),
                i <= n,
                forall|j: int| 0 <= j < i ==> dec.seen@[j],
            decreases n - i,
        {
            if !dec.seen[i] {
                let e = PayloadError::MissingField { label: self.labels[i].clone() };
                assert(!dec.seen@[i as int]);
                return Err(e);
            }
            i = i + 1;
        }
        Ok(())
    }

    /// Decodes a map, entry by entry in the given order. Each entry's key selects
    /// a field; the decoding stops at the first entry whose key is unknown (in a
    /// strict set) or selects a field already given. Entries with unknown keys are
    /// otherwise skipped. Then every field must have been given, the first missing
    /// one in declaration order is reported; else each field gets its entry's value.
    /// It takes the steps a derived deserializer takes, key by key: `identify_str`,
    /// `next_field`, then `end_map`.
    pub fn decode_map<V>(&self, entries: Vec<(String, V)>) -> (r: Result<Vec<V>, PayloadError>)
        requires
            self.wf(),
        ensures
            self.model().decoded_map(entries@, seq_result(r)),
    {
        let ghost orig = entries@;
        let ghost ks = entry_keys(orig);
        let n = self.keys.len();
        let m = entries.len();
        let mut slots: Vec<Option<V>> = Vec::new();
        let mut j: usize = 0;
        while j < n
            invariant
                n == self.keys.len(),
                j <= n,
                slots.len() == j,
                forall|t: int| 0 <= t < j ==> slots@[t] is None,
            decreases n - j,
        {
            slots.push(None);
            j = j + 1;
        }
        let mut dec = self.start_map();
        let mut rest = entries;
        let mut p: usize = 0;
        while p < m
            invariant
                self.wf(),
                n == self.keys.len(),
                m == orig.len(),
                p <= m,
                rest@ == orig.subrange(p as int, m as int),
                ks == entry_keys(orig),
                orig == entries@,
                slots.len() == n,
                dec.seen@.len() == n,
                forall|i: int| 0 <= i < n ==> #[trigger] dec.seen@[i] == (slots@[i] is Some),
                forall|q: int| 0 <= q < p ==> !#[trigger] self.model().is_bad(ks, q),
                forall|i: int|
                    0 <= i < n ==> (#[trigger] slots@[i] is Some <==> exists|q: int|
                        0 <= q < p && #[trigger] self.model().field_of(ks[q]) == Some(i)),
                forall|i: int, q: int|
                    0 <= i < n && 0 <= q < p && #[trigger] self.model().field_of(ks[q]) == Some(i)
                        ==> #[trigger] slots@[i] == Some(orig[q].1),
            decreases m - p,
        {
            let (key, value) = rest.remove(0);
            assert(key@ == ks[p as int]);
            let f = self.identify_str(&key);
            let k = match f {
                Err(e) => {
                    proof {
                        assert(self.model().is_bad(ks, p as int));
                        self.model().lemma_first_bad(ks);
                    }
                    return Err(e);
                },
                Ok(k) => k,
            };
            proof {
                self.model().lemma_field_of(key@);
            }
            let ghost seen_before = dec.seen@;
            match self.next_field(&mut dec, k) {
                Err(e) => {
                    proof {
                        let i = k->Field_0;
                        assert(seen_before[i as int]);
                        assert(slots@[i as int] is Some);
                        let q = choose|q: int| 0 <= q < p && self.model().field_of(ks[q]) == Some(i as int);
                        assert(self.model().is_dup(ks, p as int));
                        assert(self.model().is_bad(ks, p as int));
                        self.model().lemma_first_bad(ks);
                        assert(self.model().first_bad(ks) == Some(p as int));
                        assert(self.model().field_of(ks[p as int]) == Some(i as int));
                        assert(ks == entry_keys(entries@));
                    }
                    return Err(e);
                },
                Ok(None) => {
                    assert(k is Ignore);
                    assert(!self.model().is_bad(ks, p as int));
                },
                Ok(Some(i)) => {
                    assert(k == FieldKey::Field(i));
                    assert(slots@[i as int] is None);
                    proof {
                        assert(!self.model().is_dup(ks, p as int));
                    }
                    slots.set(i, Some(value));
                    assert(self.model().field_of(ks[p as int]) == Some(i as int));
                },
            }
            p = p + 1;
        }
        proof {
            self.model().lemma_first_bad(ks);
            assert(self.model().first_bad(ks) is None);
            assert forall|t: int| 0 <= t < n implies (#[trigger] slots@[t] is Some <==> self.model().is_present(ks, t)) by {
                if slots@[t] is Some {
                    let q = choose|q: int| 0 <= q < m && #[trigger] self.model().field_of(ks[q]) == Some(t);
                }
            }
            self.model().lemma_first_missing(ks);
        }
        match self.end_map(&dec) {
            Err(e) => {
                proof {
                    let i = choose|i: int|
                        0 <= i < dec.seen@.len() && !dec.seen@[i] && (forall|j: int| 0 <= j < i ==> dec.seen@[j]) && (
                        e matches PayloadError::MissingField { label } && label@ == self.labels@[i]@);
                    assert(!self.model().is_present(ks, i));
                    assert forall|j: int| 0 <= j < i implies self.model().is_present(ks, j) by {
                        assert(dec.seen@[j]);
                    }
                    assert(self.model().first_missing(ks) == Some(i));
                }
                return Err(e);
            },
            Ok(()) => {},
        }
        proof {
            assert forall|t: int| 0 <= t < n implies #[trigger] self.model().is_present(ks, t) by {
                assert(dec.seen@[t]);
            }
            assert(self.model().first_missing(ks) is None);
        }
        let ghost full = slots@;
        let mut out: Vec<V> = Vec::new();
        let mut k: usize = 0;
        while k < n
            invariant
                n == full.len(),
                n == self.keys.len(),
                m == ks.len(),
                ks == entry_keys(entries@),
                orig == entries@,
                self.model().first_bad(ks) is None,
                self.model().first_missing(ks) is None,
                forall|t: int| 0 <= t < n ==> #[trigger] self.model().is_present(ks, t),
                forall|t: int, q: int|
                    0 <= t < n && 0 <= q < m && #[trigger] self.model().field_of(ks[q]) == Some(t)
                        ==> #[trigger] full[t] == Some(orig[q].1),
                k <= n,
                slots@ == full.subrange(k as int, n as int),
                out.len() == k,
                forall|t: int| 0 <= t < n ==> #[trigger] full[t] is Some,
                forall|t: int| 0 <= t < k ==> Some(#[trigger] out@[t]) == full[t],
            decreases n - k,
        {
            let s = slots.remove(0);
            assert(s == full[k as int]);
            if let Some(v) = s {
                out.push(v);
            }
            k = k + 1;
        }
        let ghost outv = out@;
        proof {
            assert(outv.len() == self.keys.len());
            assert forall|i: int| 0 <= i < outv.len() implies #[trigger] self.model().is_value_of(
                orig,
                i,
                outv[i],
            ) by {
                assert(full[i] is Some);
                let q = choose|q: int| 0 <= q < m && #[trigger] self.model().field_of(ks[q]) == Some(i);
                assert(full[i] == Some(orig[q].1));
                assert(Some(out@[i]) == full[i]);
                assert(0 <= q < orig.len() && self.model().field_of(entry_keys(orig)[q]) == Some(i)
                    && outv[i] == orig[q].1);
            }
            assert(self.model().values_match(orig, outv));
        }
        let r: Result<Vec<V>, PayloadError> = Ok(out);
        r
    }

    /// Decodes a sequence: the fields take the first values in order, and later
    /// values are left alone. A short sequence is an error at index 0, or, in a
    /// strict set, at the index of the first missing value.
    pub fn decode_seq<V>(&self, elements: Vec<V>) -> (r: Result<Vec<V>, PayloadError>)
        ensures
            if elements.len() < self.keys.len() {
                r matches Err(PayloadError::InvalidLength { index }) && index == (if self.strict {
                    elements.len()
                } else {
                    0
                })
            } else {
                r matches Ok(vals) && vals@ == elements@.take(self.keys.len() as int)
            },
    {
        let n = self.keys.len();
        let len = elements.len();
        if len < n {
            return Err(PayloadError::InvalidLength { index: if self.strict { len } else { 0 } });
        }
        let mut rest = elements;
        rest.truncate(n);
        Ok(rest)
    }
}


/// The values of a list of entries, in order.
pub open spec fn entry_values<V>(entries: Seq<(String, V)>) -> Seq<V> {
    entries.map_values(|e: (String, V)| e.1)
}

/// No two keys of the model are the same.
pub open spec fn keys_distinct(keys: Seq<Seq<char>>) -> bool {
    forall|i: int, j: int| 0 <= i < j < keys.len() ==> keys[i] != keys[j]
}

/// The entries a payload is written as: each field's value under its key, in
/// declaration order.
pub fn serialize_fields<V>(keys: &Vec<String>, values: Vec<V>) -> (r: Vec<(String, V)>)
    requires
        keys.len() == values.len(),
    ensures
        entry_keys(r@) == keys.deep_view(),
        entry_values(r@) == values@,
{
    let n = keys.len();
    let ghost vals = values@;
    let mut rest = values;
    let mut out: Vec<(String, V)> = Vec::new();
    let mut i: usize = 0;
    while i < n
        invariant
            n == keys.len(),
            n == vals.len(),
            i <= n,
            rest@ == vals.subrange(i as int, n as int),
            out@.len() == i,
            forall|t: int| 0 <= t < i ==> (#[trigger] out@[t]).0@ == keys.deep_view()[t],
            forall|t: int| 0 <= t < i ==> (#[trigger] out@[t]).1 == vals[t],
        decreases n - i,
    {
        let v = rest.remove(0);
        let k = keys[i].clone();
        out.push((k, v));
        i = i + 1;
    }
    assert(entry_keys(out@) =~= keys.deep_view());
    assert(entry_values(out@) =~= vals);
    out
}

/// Reading back what was written: when the keys of a field set are pairwise
/// distinct, decoding entries that carry the fields' keys in declaration order
/// succeeds, and gives back the entries' values, and nothing else.
pub proof fn lemma_decode_written<V>(
    model: FieldModel,
    entries: Seq<(String, V)>,
    r: Result<Seq<V>, PayloadError>,
)
    requires
        keys_distinct(model.keys),
        entry_keys(entries) == model.keys,
    ensures
        model.decoded_map(entries, r) <==> r == Ok::<Seq<V>, PayloadError>(entry_values(entries)),
{
    let ks = entry_keys(entries);
    assert forall|p: int| 0 <= p < ks.len() implies #[trigger] model.field_of(ks[p]) == Some(p) by {
        model.lemma_field_of(ks[p]);
    }
    assert forall|p: int| 0 <= p < ks.len() implies !#[trigger] model.is_bad(ks, p) by {
        assert(model.field_of(ks[p]) == Some(p));
        if model.is_dup(ks, p) {
            let q = choose|q: int| 0 <= q < p && model.field_of(ks[q]) == model.field_of(ks[p]);
            assert(model.field_of(ks[q]) == Some(q));
        }
    }
    model.lemma_first_bad(ks);
    assert forall|i: int| 0 <= i < model.keys.len() implies #[trigger] model.is_present(ks, i) by {
        assert(model.field_of(ks[i]) == Some(i));
    }
    model.lemma_first_missing(ks);
    let vals = entry_values(entries);
    assert forall|i: int| 0 <= i < vals.len() implies #[trigger] model.is_value_of(entries, i, vals[i]) by {
        assert(model.field_of(entry_keys(entries)[i]) == Some(i));
    }
    if model.decoded_map(entries, r) {
        let got = r->Ok_0;
        assert forall|i: int| 0 <= i < got.len() implies got[i] == vals[i] by {
            assert(model.is_value_of(entries, i, got[i]));
            let p = choose|p: int|
                0 <= p < entries.len() && #[trigger] model.field_of(entry_keys(entries)[p]) == Some(i)
                    && got[i] == entries[p].1;
            assert(model.field_of(ks[p]) == Some(p));
        }
        assert(got =~= vals);
    }
}

} // verus!
