//! The dynamic value tree that every frame on the wire carries.

use vstd::prelude::*;
use vstd::string::StringExecFns;
use vstd::string::StringSliceAdditionalSpecFns;

verus! {

/// A MessagePack integer: any whole number from `i64::MIN` to `u64::MAX`.
///
/// `PosInt` holds the numbers from zero up; `NegInt` is meant for the
/// numbers below zero. What counts is the number held: see the view.
#[derive(Clone, Copy, Debug, PartialEq)]
pub enum Integer {
    PosInt(u64),
    NegInt(i64),
}

impl View for Integer {
    type V = int;

    open spec fn view(&self) -> int {
        match self {
            Integer::PosInt(n) => *n as int,
            Integer::NegInt(n) => *n as int,
        }
    }
}

impl Integer {
    /// The number as a `u64`, if it is one.
    pub fn as_u64(&self) -> (r: Option<u64>)
        ensures
            r == (if 0 <= self@ <= u64::MAX {
                Some(self@ as u64)
            } else {
                None
            }),
    {
        match self {
            Integer::PosInt(n) => Some(*n),
            Integer::NegInt(n) => if *n >= 0 {
                Some(*n as u64)
            } else {
                None
            },
        }
    }

    /// The number as an `i64`, if it is one.
    pub fn as_i64(&self) -> (r: Option<i64>)
        ensures
            r == (if i64::MIN <= self@ <= i64::MAX {
                Some(self@ as i64)
            } else {
                None
            }),
    {
        match self {
            Integer::PosInt(n) => if *n <= 0x7fff_ffff_ffff_ffffu64 {
                Some(*n as i64)
            } else {
                None
            },
            Integer::NegInt(n) => Some(*n),
        }
    }
}

/// A self-describing value.
///
/// The two float variants hold the bit pattern of the number, which is what
/// travels on the wire.
#[derive(Debug, PartialEq)]
pub enum Value {
    Nil,
    Boolean(bool),
    Integer(Integer),
    /// The bit pattern of a 32-bit float.
    F32(u32),
    /// The bit pattern of a 64-bit float.
    F64(u64),
    String(String),
    Binary(Vec<u8>),
    Array(Vec<Value>),
    /// An ordered sequence of key and value pairs.
    Mapping(Vec<(Value, Value)>),
    /// A tag and the bytes of an extension.
    Ext(i8, Vec<u8>),
}

/// The mathematical content of a [`Value`].
pub enum ValueView {
    Nil,
    Boolean(bool),
    Integer(int),
    F32(u32),
    F64(u64),
    String(Seq<char>),
    Binary(Seq<u8>),
    Array(Seq<ValueView>),
    Mapping(Seq<(ValueView, ValueView)>),
    Ext(i8, Seq<u8>),
}

impl View for Value {
    type V = ValueView;

    open spec fn view(&self) -> ValueView {
        value_view(*self)
    }
}

/// What a value holds.
pub open spec fn value_view(v: Value) -> ValueView
    decreases v, 0nat,
{
    match v {
        Value::Nil => ValueView::Nil,
        Value::Boolean(b) => ValueView::Boolean(b),
        Value::Integer(n) => ValueView::Integer(n@),
        Value::F32(bits) => ValueView::F32(bits),
        Value::F64(bits) => ValueView::F64(bits),
        Value::String(s) => ValueView::String(s@),
        Value::Binary(b) => ValueView::Binary(b@),
        Value::Array(items) => ValueView::Array(item_views(items@, items@.len())),
        Value::Mapping(pairs) => ValueView::Mapping(pair_views(pairs@, pairs@.len())),
        Value::Ext(tag, data) => ValueView::Ext(tag, data@),
    }
}

/// What the first `n` of `items` hold, in order.
pub open spec fn item_views(items: Seq<Value>, n: nat) -> Seq<ValueView>
    decreases items, n,
{
    if n == 0 || n > items.len() {
        Seq::empty()
    } else {
        item_views(items, (n - 1) as nat).push(value_view(items[n - 1]))
    }
}

/// What the first `n` of `pairs` hold, in order.
pub open spec fn pair_views(pairs: Seq<(Value, Value)>, n: nat) -> Seq<(ValueView, ValueView)>
    decreases pairs, n,
{
    if n == 0 || n > pairs.len() {
        Seq::empty()
    } else {
        pair_views(pairs, (n - 1) as nat).push(
            (value_view(pairs[n - 1].0), value_view(pairs[n - 1].1)),
        )
    }
}

/// The views of a sequence of values, in order.
pub open spec fn views_of(items: Seq<Value>) -> Seq<ValueView> {
    Seq::new(items.len(), |i: int| items[i]@)
}

/// The views of a sequence of pairs of values, in order.
pub open spec fn pair_views_of(pairs: Seq<(Value, Value)>) -> Seq<(ValueView, ValueView)> {
    Seq::new(pairs.len(), |i: int| (pairs[i].0@, pairs[i].1@))
}

/// The first `n` views are the views of the first `n` items.
pub proof fn lemma_item_views(items: Seq<Value>, n: nat)
    requires
        n <= items.len(),
    ensures
        item_views(items, n).len() == n,
        forall|i: int| 0 <= i < n ==> item_views(items, n)[i] == items[i]@,
    decreases n,
{
    if n > 0 {
        lemma_item_views(items, (n - 1) as nat);
    }
}

/// The first `n` views are the views of the first `n` pairs.
pub proof fn lemma_pair_views(pairs: Seq<(Value, Value)>, n: nat)
    requires
        n <= pairs.len(),
    ensures
        pair_views(pairs, n).len() == n,
        forall|i: int|
            0 <= i < n ==> pair_views(pairs, n)[i] == (pairs[i].0@, pairs[i].1@),
    decreases n,
{
    if n > 0 {
        lemma_pair_views(pairs, (n - 1) as nat);
    }
}

/// An array holds what its items hold, in order.
pub proof fn lemma_array_view(items: Vec<Value>)
    ensures
        Value::Array(items)@ == ValueView::Array(views_of(items@)),
{
    lemma_item_views(items@, items@.len());
    assert(item_views(items@, items@.len()) =~= views_of(items@));
}

/// A map holds what its pairs hold, in order.
pub proof fn lemma_mapping_view(pairs: Vec<(Value, Value)>)
    ensures
        Value::Mapping(pairs)@ == ValueView::Mapping(pair_views_of(pairs@)),
{
    lemma_pair_views(pairs@, pairs@.len());
    assert(pair_views(pairs@, pairs@.len()) =~= pair_views_of(pairs@));
}

impl ValueView {
    /// The number, if the value is a whole number that fits a `u64`.
    pub open spec fn as_u64(self) -> Option<u64> {
        match self {
            ValueView::Integer(n) => if 0 <= n <= u64::MAX {
                Some(n as u64)
            } else {
                None
            },
            _ => None,
        }
    }

    /// The name of the variant.
    pub open spec fn variant_name(self) -> Seq<char> {
        match self {
            ValueView::Nil => "nil"@,
            ValueView::Boolean(_) => "bool"@,
            ValueView::Integer(_) => "int"@,
            ValueView::F32(_) => "float32"@,
            ValueView::F64(_) => "float64"@,
            ValueView::String(_) => "str"@,
            ValueView::Binary(_) => "bytearray"@,
            ValueView::Array(_) => "array"@,
            ValueView::Mapping(_) => "map"@,
            ValueView::Ext(_, _) => "ext"@,
        }
    }
}

impl Clone for Value {
    /// A copy that holds what the value holds.
    fn clone(&self) -> (r: Value)
        ensures
            r@ == self@,
        decreases self,
    {
        match self {
            Value::Nil => Value::Nil,
            Value::Boolean(b) => Value::Boolean(*b),
            Value::Integer(n) => Value::Integer(*n),
            Value::F32(bits) => Value::F32(*bits),
            Value::F64(bits) => Value::F64(*bits),
            Value::String(s) => Value::String(s.clone()),
            Value::Binary(b) => Value::Binary(copy_bytes(b.as_slice())),
            Value::Array(items) => {
                let mut out: Vec<Value> = Vec::new();
                let mut i: usize = 0;
                while i < items.len()
                    invariant
                        i <= items.len(),
                        out@.len() == i,
                        forall|j: int| 0 <= j < i ==> out@[j]@ == items@[j]@,
                        *self == Value::Array(*items),
                    decreases items.len() - i,
                {
                    assert(decreases_to!(items => items[i as int]));
                    assert(self->Array_0 == *items);
                    assert(decreases_to!(self => self->Array_0));
                    out.push(items[i].clone());
                    i += 1;
                }
                proof {
                    lemma_array_view(out);
                    lemma_array_view(*items);
                    assert(views_of(out@) =~= views_of(items@));
                }
                Value::Array(out)
            },
            Value::Mapping(pairs) => {
                let mut out: Vec<(Value, Value)> = Vec::new();
                let mut i: usize = 0;
                while i < pairs.len()
                    invariant
                        i <= pairs.len(),
                        out@.len() == i,
                        forall|j: int|
                            0 <= j < i ==> out@[j].0@ == pairs@[j].0@ && out@[j].1@
                                == pairs@[j].1@,
                        *self == Value::Mapping(*pairs),
                    decreases pairs.len() - i,
                {
                    assert(decreases_to!(pairs => pairs[i as int]));
                    assert(decreases_to!(pairs[i as int] => pairs[i as int].0));
                    assert(decreases_to!(pairs[i as int] => pairs[i as int].1));
                    assert(self->Mapping_0 == *pairs);
                    assert(decreases_to!(self => self->Mapping_0));
                    out.push((pairs[i].0.clone(), pairs[i].1.clone()));
                    i += 1;
                }
                proof {
                    lemma_mapping_view(out);
                    lemma_mapping_view(*pairs);
                    assert(pair_views_of(out@) =~= pair_views_of(pairs@));
                }
                Value::Mapping(out)
            },
            Value::Ext(tag, data) => Value::Ext(*tag, copy_bytes(data.as_slice())),
        }
    }
}

/// A vector that holds the bytes of `bytes`.
pub fn copy_bytes(bytes: &[u8]) -> (out: Vec<u8>)
    ensures
        out@ == bytes@,
{
    let mut out: Vec<u8> = Vec::new();
    let mut i: usize = 0;
    while i < bytes.len()
        invariant
            i <= bytes.len(),
            out@ == bytes@.subrange(0, i as int),
        decreases bytes.len() - i,
    {
        out.push(bytes[i]);
        assert(out@ =~= bytes@.subrange(0, i + 1));
        i += 1;
    }
    assert(out@ =~= bytes@);
    out
}

impl Value {
    /// The whole number `n`.
    pub fn from_u64(n: u64) -> (v: Value)
        ensures
            v == Value::Integer(Integer::PosInt(n)),
            v@ == ValueView::Integer(n as int),
    {
        Value::Integer(Integer::PosInt(n))
    }

    /// The whole number `n`.
    pub fn from_i64(n: i64) -> (v: Value)
        ensures
            v@ == ValueView::Integer(n as int),
    {
        if n >= 0 {
            Value::Integer(Integer::PosInt(n as u64))
        } else {
            Value::Integer(Integer::NegInt(n))
        }
    }

    /// The text `s`.
    pub fn from_str(s: &str) -> (v: Value)
        ensures
            v@ == ValueView::String(s@),
    {
        Value::String(String::from_str(s))
    }

    /// The bytes of `bytes` as a binary value.
    pub fn from_slice(bytes: &[u8]) -> (v: Value)
        ensures
            v@ == ValueView::Binary(bytes@),
    {
        Value::Binary(copy_bytes(bytes))
    }

    /// Whether the value is nil.
    pub fn is_nil(&self) -> (b: bool)
        ensures
            b == (self@ is Nil),
    {
        match self {
            Value::Nil => true,
            _ => false,
        }
    }

    /// Whether the value is binary data.
    pub fn is_bin(&self) -> (b: bool)
        ensures
            b == (self@ is Binary),
    {
        match self {
            Value::Binary(_) => true,
            _ => false,
        }
    }

    /// Whether the value is an array.
    pub fn is_array(&self) -> (b: bool)
        ensures
            b == (self@ is Array),
    {
        match self {
            Value::Array(_) => true,
            _ => false,
        }
    }

    /// The boolean, if the value is one.
    pub fn as_bool(&self) -> (r: Option<bool>)
        ensures
            r == (match self@ {
                ValueView::Boolean(b) => Some(b),
                _ => None,
            }),
    {
        match self {
            Value::Boolean(b) => Some(*b),
            _ => None,
        }
    }

    /// The number, if the value is a whole number that fits a `u64`.
    pub fn as_u64(&self) -> (r: Option<u64>)
        ensures
            r == self@.as_u64(),
    {
        match self {
            Value::Integer(n) => n.as_u64(),
            _ => None,
        }
    }

    /// The number, if the value is a whole number that fits an `i64`.
    pub fn as_i64(&self) -> (r: Option<i64>)
        ensures
            r == (match self@ {
                ValueView::Integer(n) => if i64::MIN <= n <= i64::MAX {
                    Some(n as i64)
                } else {
                    None
                },
                _ => None,
            }),
    {
        match self {
            Value::Integer(n) => n.as_i64(),
            _ => None,
        }
    }

    /// The text, if the value is a string.
    pub fn as_str(&self) -> (r: Option<&str>)
        ensures
            match r {
                Some(s) => self@ == ValueView::String(s@),
                None => !(self@ is String),
            },
    {
        match self {
            Value::String(s) => Some(s.as_str()),
            _ => None,
        }
    }

    /// The bytes of binary data, or of a string in UTF-8.
    pub fn as_slice(&self) -> (r: Option<&[u8]>)
        ensures
            match self@ {
                ValueView::Binary(b) => r is Some && r->0@ == b,
                ValueView::String(s) => r is Some && r->0@ == vstd::utf8::encode_utf8(s),
                _ => r is None,
            },
    {
        match self {
            Value::Binary(b) => Some(b.as_slice()),
            Value::String(s) => Some(s.as_str().as_bytes()),
            _ => None,
        }
    }

    /// The items, if the value is an array.
    pub fn as_array(&self) -> (r: Option<&Vec<Value>>)
        ensures
            match r {
                Some(items) => *self == Value::Array(*items),
                None => !(self@ is Array),
            },
    {
        match self {
            Value::Array(items) => Some(items),
            _ => None,
        }
    }

    /// The pairs, if the value is a map.
    pub fn as_map(&self) -> (r: Option<&Vec<(Value, Value)>>)
        ensures
            match r {
                Some(pairs) => *self == Value::Mapping(*pairs),
                None => !(self@ is Mapping),
            },
    {
        match self {
            Value::Mapping(pairs) => Some(pairs),
            _ => None,
        }
    }

    /// The tag and the bytes, if the value is an extension.
    pub fn as_ext(&self) -> (r: Option<(i8, &[u8])>)
        ensures
            match r {
                Some((tag, data)) => self@ == ValueView::Ext(tag, data@),
                None => !(self@ is Ext),
            },
    {
        match self {
            Value::Ext(tag, data) => Some((*tag, data.as_slice())),
            _ => None,
        }
    }

    /// The name of the variant: one of `nil`, `bool`, `int`, `float32`,
    /// `float64`, `str`, `bytearray`, `array`, `map` and `ext`.
    pub fn variant_name(&self) -> (s: &'static str)
        ensures
            s@ == self@.variant_name(),
    {
        match self {
            Value::Nil => "nil",
            Value::Boolean(_) => "bool",
            Value::Integer(_) => "int",
            Value::F32(_) => "float32",
            Value::F64(_) => "float64",
            Value::String(_) => "str",
            Value::Binary(_) => "bytearray",
            Value::Array(_) => "array",
            Value::Mapping(_) => "map",
            Value::Ext(_, _) => "ext",
        }
    }
}

} // verus!
