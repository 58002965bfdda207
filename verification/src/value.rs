//! Reply values and errors: the one outcome type that every command hands back.

use vstd::prelude::*;
use vstd::std_specs::convert::FromSpecImpl;
use vstd::std_specs::iter::IteratorSpec;

verus! {

/// Why a command failed.
#[derive(Debug)]
pub enum RedisError {
    /// The command was given too few arguments.
    WrongArity,
    /// A fixed diagnostic message.
    Str(&'static str),
    /// A diagnostic message built at run time.
    String(String),
    /// The key holds another kind of value than the operation works on.
    WrongType,
}

/// Mathematical picture of a [`RedisError`].
pub ghost enum ErrorView {
    WrongArity,
    Str(Seq<char>),
    String(Seq<char>),
    WrongType,
}

impl View for RedisError {
    type V = ErrorView;

    open spec fn view(&self) -> ErrorView {
        match *self {
            RedisError::WrongArity => ErrorView::WrongArity,
            RedisError::Str(s) => ErrorView::Str(s@),
            RedisError::String(s) => ErrorView::String(s@),
            RedisError::WrongType => ErrorView::WrongType,
        }
    }
}

/// A reply: exactly one of six shapes, arrays nesting to any depth.
#[derive(Debug, PartialEq)]
pub enum RedisValue {
    /// Status text known at compile time.
    SimpleStringStatic(&'static str),
    /// Status text built at run time.
    SimpleString(String),
    /// Bulk text.
    BulkString(String),
    /// A signed 64-bit integer.
    Integer(i64),
    /// An ordered sequence of replies.
    Array(Vec<RedisValue>),
    /// The empty reply.
    Null,
}

/// Mathematical picture of a [`RedisValue`].
pub ghost enum ValueView {
    SimpleStringStatic(Seq<char>),
    SimpleString(Seq<char>),
    BulkString(Seq<char>),
    Integer(int),
    Array(Seq<ValueView>),
    Null,
}

impl View for RedisValue {
    type V = ValueView;

    open spec fn view(&self) -> ValueView
        decreases self,
    {
        match self {
            RedisValue::SimpleStringStatic(s) => ValueView::SimpleStringStatic(s@),
            RedisValue::SimpleString(s) => ValueView::SimpleString(s@),
            RedisValue::BulkString(s) => ValueView::BulkString(s@),
            RedisValue::Integer(i) => ValueView::Integer(*i as int),
            RedisValue::Array(items) => ValueView::Array(
                Seq::new(
                    items.len() as nat,
                    |k: int|
                        if 0 <= k < items.len() {
                            items[k].view()
                        } else {
                            ValueView::Null
                        },
                ),
            ),
            RedisValue::Null => ValueView::Null,
        }
    }
}

/// What every operation returns: a reply or an error, never both.
pub type RedisResult = Result<RedisValue, RedisError>;

/// The reply that acknowledges a command: the fixed status text `OK`.
pub fn redis_ok() -> (res: RedisResult)
    ensures
        res matches Ok(value) && value@ == ValueView::SimpleStringStatic("OK"@),
{
    Ok(RedisValue::SimpleStringStatic("OK"))
}

impl From<&'static str> for RedisError {
    fn from(s: &'static str) -> (ret: Self)
        ensures
            ret@ == ErrorView::Str(s@),
    {
        RedisError::Str(s)
    }
}

impl FromSpecImpl<&'static str> for RedisError {
    open spec fn obeys_from_spec() -> bool {
        true
    }

    open spec fn from_spec(s: &'static str) -> Self {
        RedisError::Str(s)
    }
}

impl From<i64> for RedisValue {
    fn from(i: i64) -> (ret: Self)
        ensures
            ret@ == ValueView::Integer(i as int),
    {
        RedisValue::Integer(i)
    }
}

impl FromSpecImpl<i64> for RedisValue {
    open spec fn obeys_from_spec() -> bool {
        true
    }

    open spec fn from_spec(i: i64) -> Self {
        RedisValue::Integer(i)
    }
}

impl From<()> for RedisValue {
    fn from(unit: ()) -> (ret: Self)
        ensures
            ret@ == ValueView::Null,
    {
        RedisValue::Null
    }
}

impl FromSpecImpl<()> for RedisValue {
    open spec fn obeys_from_spec() -> bool {
        true
    }

    open spec fn from_spec(unit: ()) -> Self {
        RedisValue::Null
    }
}

impl From<String> for RedisValue {
    fn from(s: String) -> (ret: Self)
        ensures
            ret@ == ValueView::SimpleString(s@),
    {
        RedisValue::SimpleString(s)
    }
}

impl FromSpecImpl<String> for RedisValue {
    open spec fn obeys_from_spec() -> bool {
        true
    }

    open spec fn from_spec(s: String) -> Self {
        RedisValue::SimpleString(s)
    }
}

impl From<&str> for RedisValue {
    fn from(s: &str) -> (ret: Self)
        ensures
            ret@ == ValueView::SimpleString(s@),
    {
        RedisValue::SimpleString(s.to_owned())
    }
}

impl FromSpecImpl<&str> for RedisValue {
    open spec fn obeys_from_spec() -> bool {
        false
    }

    open spec fn from_spec(s: &str) -> Self {
        arbitrary()
    }
}

/// The array of bulk texts that a sequence of texts turns into.
pub open spec fn bulk_strings(strings: Seq<String>) -> ValueView {
    ValueView::Array(Seq::new(strings.len(), |k: int| ValueView::BulkString(strings[k]@)))
}

/// The array of integers that a sequence of integers turns into.
pub open spec fn integers(nums: Seq<i64>) -> ValueView {
    ValueView::Array(Seq::new(nums.len(), |k: int| ValueView::Integer(nums[k] as int)))
}

/// A sequence of texts turns into an array of the same length whose elements
/// are bulk texts, each holding the text at its place.
pub proof fn lemma_bulk_strings_keep_order(strings: Seq<String>)
    ensures
        bulk_strings(strings) matches ValueView::Array(items) && items.len() == strings.len()
            && forall|k: int|
            0 <= k < strings.len() ==> #[trigger] items[k] == ValueView::BulkString(strings[k]@),
{
}

impl From<Vec<String>> for RedisValue {
    fn from(strings: Vec<String>) -> (ret: Self)
        ensures
            ret@ == bulk_strings(strings@),
    {
        let ghost all = strings@;
        let mut items: Vec<RedisValue> = Vec::new();
        for s in rest: strings.into_iter()
            invariant
                rest.seq() == all,
                items@.len() == rest.index(),
                forall|k: int|
                    0 <= k < items@.len() ==> (#[trigger] items@[k])@ == ValueView::BulkString(
                        all[k]@,
                    ),
        {
            items.push(RedisValue::BulkString(s));
        }
        let ret = RedisValue::Array(items);
        proof {
            assert(ret@->Array_0 =~= bulk_strings(all)->Array_0);
        }
        ret
    }
}

impl FromSpecImpl<Vec<String>> for RedisValue {
    open spec fn obeys_from_spec() -> bool {
        false
    }

    open spec fn from_spec(strings: Vec<String>) -> Self {
        arbitrary()
    }
}

impl From<Vec<i64>> for RedisValue {
    fn from(nums: Vec<i64>) -> (ret: Self)
        ensures
            ret@ == integers(nums@),
    {
        let mut items: Vec<RedisValue> = Vec::new();
        let mut k: usize = 0;
        while k < nums.len()
            invariant
                k <= nums@.len(),
                items@.len() == k,
                forall|j: int|
                    0 <= j < k ==> (#[trigger] items@[j])@ == ValueView::Integer(nums@[j] as int),
            decreases nums@.len() - k,
        {
            items.push(RedisValue::Integer(nums[k]));
            k = k + 1;
        }
        let ret = RedisValue::Array(items);
        proof {
            assert(ret@->Array_0 =~= integers(nums@)->Array_0);
        }
        ret
    }
}

impl FromSpecImpl<Vec<i64>> for RedisValue {
    open spec fn obeys_from_spec() -> bool {
        false
    }

    open spec fn from_spec(nums: Vec<i64>) -> Self {
        arbitrary()
    }
}

impl From<usize> for RedisValue {
    /// The size is reinterpreted in 64 bits, two's complement: a size of at
    /// most `i64::MAX` keeps its value.
    fn from(i: usize) -> (ret: Self)
        ensures
            ret@ == ValueView::Integer((i as i64) as int),
            i <= i64::MAX ==> ret@ == ValueView::Integer(i as int),
    {
        RedisValue::Integer(i as i64)
    }
}

impl FromSpecImpl<usize> for RedisValue {
    open spec fn obeys_from_spec() -> bool {
        true
    }

    open spec fn from_spec(i: usize) -> Self {
        RedisValue::Integer(i as i64)
    }
}

} // verus!
