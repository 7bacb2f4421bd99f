use vstd::prelude::*;

verus! {

/// In-memory recursive tree form of a component-model value.
///
/// Exactly one case is active at a time. Sequences are order-sensitive, and
/// the 32-bit and 64-bit float payloads are carried as their raw IEEE-754 bit
/// patterns (`F32` holds the 32 bits, `F64` the 64 bits), so equality on every
/// payload is exact bit equality.
#[derive(Debug, PartialEq)]
pub enum Value {
    Bool(bool),
    U8(u8),
    U16(u16),
    U32(u32),
    U64(u64),
    S8(i8),
    S16(i16),
    S32(i32),
    S64(i64),
    F32(u32),
    F64(u64),
    Char(char),
    String(String),
    List(Vec<Value>),
    Tuple(Vec<Value>),
    Record(Vec<Value>),
    Variant { case_idx: u32, case_value: Option<Box<Value>> },
    Enum(u32),
    Flags(Vec<bool>),
    Option(Option<Box<Value>>),
    Result(Result<Option<Box<Value>>, Option<Box<Value>>>),
}

/// Mathematical model of a `Value`: the same tree with `Vec` replaced by `Seq`
/// and `String` by `Seq<char>`.
pub enum ValueView {
    Bool(bool),
    U8(u8),
    U16(u16),
    U32(u32),
    U64(u64),
    S8(i8),
    S16(i16),
    S32(i32),
    S64(i64),
    F32(u32),
    F64(u64),
    Char(char),
    String(Seq<char>),
    List(Seq<ValueView>),
    Tuple(Seq<ValueView>),
    Record(Seq<ValueView>),
    Variant { case_idx: u32, case_value: Option<Box<ValueView>> },
    Enum(u32),
    Flags(Seq<bool>),
    Option(Option<Box<ValueView>>),
    Result(Result<Option<Box<ValueView>>, Option<Box<ValueView>>>),
}

impl Value {
    /// The models of the values of `items` from position `i` on, in order.
    pub open spec fn models_from(items: Vec<Value>, i: int) -> Seq<ValueView>
        decreases items, items.len() - i,
    {
        if i < 0 || i >= items.len() {
            Seq::empty()
        } else {
            seq![items[i].model()] + Value::models_from(items, i + 1)
        }
    }

    /// The mathematical model of this value.
    pub open spec fn model(self) -> ValueView
        decreases self, 0int,
    {
        match self {
            Value::Bool(b) => ValueView::Bool(b),
            Value::U8(n) => ValueView::U8(n),
            Value::U16(n) => ValueView::U16(n),
            Value::U32(n) => ValueView::U32(n),
            Value::U64(n) => ValueView::U64(n),
            Value::S8(n) => ValueView::S8(n),
            Value::S16(n) => ValueView::S16(n),
            Value::S32(n) => ValueView::S32(n),
            Value::S64(n) => ValueView::S64(n),
            Value::F32(bits) => ValueView::F32(bits),
            Value::F64(bits) => ValueView::F64(bits),
            Value::Char(c) => ValueView::Char(c),
            Value::String(s) => ValueView::String(s@),
            Value::List(items) => ValueView::List(Value::models_from(items, 0)),
            Value::Tuple(items) => ValueView::Tuple(Value::models_from(items, 0)),
            Value::Record(fields) => ValueView::Record(Value::models_from(fields, 0)),
            Value::Variant { case_idx, case_value } => ValueView::Variant {
                case_idx: case_idx,
                case_value: match case_value {
                    Some(inner) => Some(Box::new(inner.model())),
                    None => None,
                },
            },
            Value::Enum(case_idx) => ValueView::Enum(case_idx),
            Value::Flags(flags) => ValueView::Flags(flags@),
            Value::Option(inner) => ValueView::Option(
                match inner {
                    Some(inner) => Some(Box::new(inner.model())),
                    None => None,
                },
            ),
            Value::Result(res) => ValueView::Result(
                match res {
                    Ok(Some(inner)) => Ok(Some(Box::new(inner.model()))),
                    Ok(None) => Ok(None),
                    Err(Some(inner)) => Err(Some(Box::new(inner.model()))),
                    Err(None) => Err(None),
                },
            ),
        }
    }
}

/// `models_from(items, i)` lists, in order, the model of each value of
/// `items` from position `i` on.
pub proof fn lemma_models_from(items: Vec<Value>, i: int)
    requires
        0 <= i <= items@.len(),
    ensures
        Value::models_from(items, i).len() == items@.len() - i,
        forall|j: int|
            0 <= j < items@.len() - i ==> #[trigger] Value::models_from(items, i)[j]
                == items@[i + j]@,
    decreases items@.len() - i,
{
    if i < items@.len() {
        lemma_models_from(items, i + 1);
    }
}

impl View for Value {
    type V = ValueView;

    open spec fn view(&self) -> ValueView {
        self.model()
    }
}

} // verus!
