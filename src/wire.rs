use vstd::prelude::*;

verus! {

/// A loosely typed value of the engine's JSON wire format.
#[derive(Debug, PartialEq)]
pub enum WireValue {
    Null,
    Bool(bool),
    Int(i64),
    Str(String),
    Array(Vec<WireValue>),
    Object(Vec<(String, WireValue)>),
}

/// The mathematical model of a wire value.
pub enum WireView {
    Null,
    Bool(bool),
    Int(int),
    Str(Seq<char>),
    Array(Seq<WireView>),
    Object(Seq<(Seq<char>, WireView)>),
}

/// The fields of a wire object, in order.
pub type Fields = Seq<(Seq<char>, WireView)>;

impl WireValue {
    pub open spec fn view(&self) -> WireView
        decreases self,
    {
        match self {
            WireValue::Null => WireView::Null,
            WireValue::Bool(b) => WireView::Bool(*b),
            WireValue::Int(n) => WireView::Int(*n as int),
            WireValue::Str(s) => WireView::Str(s@),
            WireValue::Array(v) => WireView::Array(
                Seq::new(
                    v.len() as nat,
                    |i: int|
                        if 0 <= i < v.len() {
                            v[i].view()
                        } else {
                            WireView::Null
                        },
                ),
            ),
            WireValue::Object(v) => WireView::Object(
                Seq::new(
                    v.len() as nat,
                    |i: int|
                        if 0 <= i < v.len() {
                            (v[i].0@, v[i].1.view())
                        } else {
                            (Seq::empty(), WireView::Null)
                        },
                ),
            ),
        }
    }
}

/// The model of a vector of object fields.
pub open spec fn fields_view(v: Vec<(String, WireValue)>) -> Fields {
    Seq::new(v.len() as nat, |i: int| (v[i].0@, v[i].1@))
}

/// The model of a vector of array items.
pub open spec fn items_view(v: Vec<WireValue>) -> Seq<WireView> {
    Seq::new(v.len() as nat, |i: int| v[i]@)
}

pub proof fn lemma_object_view(v: Vec<(String, WireValue)>)
    ensures
        WireValue::Object(v)@ == WireView::Object(fields_view(v)),
{
    assert(WireValue::Object(v)@->Object_0 =~= fields_view(v));
}

pub proof fn lemma_array_view(v: Vec<WireValue>)
    ensures
        WireValue::Array(v)@ == WireView::Array(items_view(v)),
{
    assert(WireValue::Array(v)@->Array_0 =~= items_view(v));
}

/// The value of the last field among the first `n` that carries key `k`.
pub open spec fn lookup_upto(fs: Fields, k: Seq<char>, n: int) -> Option<WireView>
    decreases n,
{
    if n <= 0 {
        None
    } else if fs[n - 1].0 == k {
        Some(fs[n - 1].1)
    } else {
        lookup_upto(fs, k, n - 1)
    }
}

/// The value of field `k` of an object: when a key repeats, the last one counts.
pub open spec fn lookup(fs: Fields, k: Seq<char>) -> Option<WireView> {
    lookup_upto(fs, k, fs.len() as int)
}

pub proof fn lemma_lookup_upto_concat(a: Fields, b: Fields, k: Seq<char>, m: int)
    requires
        0 <= m <= b.len(),
    ensures
        lookup_upto(a + b, k, a.len() + m) == (match lookup_upto(b, k, m) {
            Some(v) => Some(v),
            None => lookup(a, k),
        }),
    decreases m,
{
    if m > 0 {
        lemma_lookup_upto_concat(a, b, k, m - 1);
    } else {
        lemma_lookup_upto_prefix(a, a + b, k, a.len() as int);
    }
}

pub proof fn lemma_lookup_upto_prefix(a: Fields, c: Fields, k: Seq<char>, n: int)
    requires
        n <= a.len(),
        n <= c.len(),
        forall|i: int| 0 <= i < n ==> a[i] == c[i],
    ensures
        lookup_upto(a, k, n) == lookup_upto(c, k, n),
    decreases n,
{
    if n > 0 {
        lemma_lookup_upto_prefix(a, c, k, n - 1);
    }
}

/// Lookup in two field lists laid one after the other.
pub proof fn lemma_lookup_concat(a: Fields, b: Fields, k: Seq<char>)
    ensures
        lookup(a + b, k) == (match lookup(b, k) {
            Some(v) => Some(v),
            None => lookup(a, k),
        }),
{
    lemma_lookup_upto_concat(a, b, k, b.len() as int);
}

/// Lookup in a field list with one more field at its end.
pub broadcast proof fn lemma_lookup_push(fs: Fields, kv: (Seq<char>, WireView), k: Seq<char>)
    ensures
        #[trigger] lookup(fs.push(kv), k) == (if kv.0 == k { Some(kv.1) } else { lookup(fs, k) }),
{
    lemma_lookup_upto_prefix(fs, fs.push(kv), k, fs.len() as int);
}

/// Lookup in two field lists laid one after the other, as an ambient fact.
pub broadcast proof fn lemma_lookup_concat_auto(a: Fields, b: Fields, k: Seq<char>)
    ensures
        #[trigger] lookup(a + b, k) == (match lookup(b, k) {
            Some(v) => Some(v),
            None => lookup(a, k),
        }),
{
    lemma_lookup_concat(a, b, k);
}

pub broadcast group group_lookup {
    lemma_lookup_push,
    lemma_lookup_concat_auto,
    lemma_lookup_empty,
}

/// Lookup in an empty field list.
pub broadcast proof fn lemma_lookup_empty(k: Seq<char>)
    ensures
        #[trigger] lookup(Seq::empty(), k) == None::<WireView>,
{
}

/// Returns the value of field `k` of `fs`, the last one where the key repeats.
pub fn find_field<'a>(fs: &'a Vec<(String, WireValue)>, k: &str) -> (r: Option<&'a WireValue>)
    ensures
        r is None <==> lookup(fields_view(*fs), k@) is None,
        r matches Some(v) ==> lookup(fields_view(*fs), k@) == Some(v@),
{
    let key = String::from_str(k);
    let mut found: Option<&'a WireValue> = None;
    let mut i: usize = 0;
    while i < fs.len()
        invariant
            0 <= i <= fs.len(),
            key@ == k@,
            found is None <==> lookup_upto(fields_view(*fs), k@, i as int) is None,
            found matches Some(v) ==> lookup_upto(fields_view(*fs), k@, i as int) == Some(v@),
        decreases fs.len() - i,
    {
        if fs[i].0 == key {
            found = Some(&fs[i].1);
        }
        i = i + 1;
    }
    found
}

/// Appends field `k` with value `v`.
pub fn push_field(out: &mut Vec<(String, WireValue)>, k: &str, v: WireValue)
    ensures
        fields_view(*final(out)) == fields_view(*old(out)).push((k@, v@)),
{
    let ghost vv = v@;
    out.push((String::from_str(k), v));
    assert(fields_view(*final(out)) =~= fields_view(*old(out)).push((k@, vv)));
}

} // verus!
