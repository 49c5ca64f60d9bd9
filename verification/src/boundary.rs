//! One call across the boundary to the native library.
//!
//! Every operation of the binding is the same few steps: find the entry
//! point, or fail before anything else is done; build the arguments; have the
//! native function called; translate its status; and, if it succeeded, turn
//! what it wrote into a typed value. The functions here are those steps. The
//! native call itself is handed in by the caller as a function from a
//! [`NativeCall`] to a [`NativeReply`], so the steps are proved for every
//! native library at once.

use crate::error::{status_error, translate, NvmlError};
use crate::symbols::{nvml_sym, EntryPoint};
use vstd::prelude::*;
use vstd::slice::slice_subrange;
use vstd::utf8::{
    decode_utf8, encode_scalar, encode_utf8, has_width_1_encoding, leading_byte_width_1,
    valid_utf8,
};

verus! {

/// Room, in bytes, that the native library asks for where it writes the name
/// or the class of a vGPU type.
pub const NVML_DEVICE_NAME_BUFFER_SIZE: u32 = 64;

/// Room, in bytes, that the native library asks for where it writes the name
/// of a device.
pub const NVML_DEVICE_NAME_V2_BUFFER_SIZE: u32 = 96;

/// Room, in bytes, that the native library asks for where it writes license
/// text.
pub const NVML_GRID_LICENSE_BUFFER_SIZE: u32 = 128;

/// What is handed to a native function: where it stands in the loaded
/// library, and its arguments.
#[derive(Debug, PartialEq, Eq)]
pub struct NativeCall<A> {
    pub entry: EntryPoint,
    pub args: A,
}

/// What comes back from a native function: its status code, and what it
/// wrote through its output parameters. The output means nothing unless the
/// status is success.
#[derive(Debug, PartialEq, Eq)]
pub struct NativeReply<T> {
    pub status: u32,
    pub output: T,
}

/// The arguments of a native function that writes text: what the call is
/// about, the buffer to write into, and how many bytes the buffer holds.
#[derive(Debug, PartialEq, Eq)]
pub struct TextRequest<H> {
    pub target: H,
    pub buffer: Vec<u8>,
    pub capacity: u32,
}

/// The arguments of a native function that fills a list: what the call is
/// about, the list to write into, and how many items the list holds.
#[derive(Debug, PartialEq, Eq)]
pub struct ListRequest<H> {
    pub target: H,
    pub items: Vec<u32>,
    pub capacity: u32,
}

/// What a native function that fills a list hands back: how many items it
/// says there are, and the list.
#[derive(Debug, PartialEq, Eq)]
pub struct Listed {
    pub count: u32,
    pub items: Vec<u32>,
}

/// What an operation returns for `reply`: the error that the status stands
/// for, or, after success, what `shape` makes of the output.
pub open spec fn reply_result<T, U>(
    reply: NativeReply<T>,
    shape: spec_fn(T) -> Result<U, NvmlError>,
) -> Result<U, NvmlError> {
    match status_error(reply.status) {
        Some(e) => Err(e),
        None => shape(reply.output),
    }
}

/// The shape of an operation that returns the output as it came.
pub open spec fn as_it_came<T>() -> spec_fn(T) -> Result<T, NvmlError> {
    |output: T| Ok::<T, NvmlError>(output)
}

/// What holds of the result of an operation that needs `entry`, passes `args`
/// and shapes the output with `shape`: without the entry point it is
/// `FunctionNotFound`; with it, it is what one reply of `native` to exactly
/// this call gives.
pub open spec fn boundary_post<A, T, U, N: FnOnce(NativeCall<A>) -> NativeReply<T>>(
    entry: Option<EntryPoint>,
    args: A,
    native: N,
    shape: spec_fn(T) -> Result<U, NvmlError>,
    result: Result<U, NvmlError>,
) -> bool {
    match entry {
        None => result == Err::<U, NvmlError>(NvmlError::FunctionNotFound),
        Some(e) => exists|reply: NativeReply<T>| #[trigger]
            native.ensures((NativeCall { entry: e, args },), reply) && result == reply_result(
                reply,
                shape,
            ),
    }
}

impl<T> NativeReply<T> {
    /// The output after success, else the error that the status stands for.
    pub fn into_result(self) -> (result: Result<T, NvmlError>)
        ensures
            result == reply_result(self, as_it_came::<T>()),
            result is Ok <==> self.status == 0,
    {
        match translate(self.status) {
            Ok(()) => Ok(self.output),
            Err(e) => Err(e),
        }
    }
}

/// Makes one native call that needs `entry`: fails with `FunctionNotFound`,
/// and calls nothing, where the entry point is absent; else calls `native`
/// once with `args` and returns its output, or the error its status stands
/// for.
pub fn boundary_call<A, T, N>(entry: Option<EntryPoint>, args: A, native: N) -> (result: Result<
    T,
    NvmlError,
>) where N: FnOnce(NativeCall<A>) -> NativeReply<T>
    requires
        entry matches Some(e) ==> native.requires((NativeCall { entry: e, args },)),
    ensures
        boundary_post(entry, args, native, as_it_came::<T>(), result),
{
    let entry = nvml_sym(entry)?;
    let reply = native(NativeCall { entry, args });
    reply.into_result()
}

/// The first `capacity` bytes of `bytes`, or all of them if they are fewer.
pub open spec fn window(bytes: Seq<u8>, capacity: int) -> Seq<u8> {
    if capacity <= 0 {
        Seq::empty()
    } else if bytes.len() <= capacity {
        bytes
    } else {
        bytes.subrange(0, capacity)
    }
}

/// The bytes before the first terminator, if there is a terminator.
pub open spec fn text_bytes(bytes: Seq<u8>) -> Option<Seq<u8>> {
    match bytes.index_of_first(0u8) {
        Some(end) => Some(bytes.subrange(0, end)),
        None => None,
    }
}

/// The text that a terminated buffer holds: the characters that the bytes
/// before the first terminator encode, if there is a terminator and those
/// bytes are UTF-8.
pub open spec fn text_of(bytes: Seq<u8>) -> Option<Seq<char>> {
    match text_bytes(bytes) {
        Some(prefix) => if valid_utf8(prefix) {
            Some(decode_utf8(prefix))
        } else {
            None
        },
        None => None,
    }
}

/// What decoding a buffer of `capacity` bytes returns.
pub open spec fn decoded(bytes: Seq<u8>, capacity: int) -> Result<Seq<char>, NvmlError> {
    match text_of(window(bytes, capacity)) {
        Some(text) => Ok(text),
        None => Err(NvmlError::Encoding),
    }
}

/// A result that holds text, with the text seen as its characters.
pub open spec fn text_view(result: Result<String, NvmlError>) -> Result<Seq<char>, NvmlError> {
    match result {
        Ok(text) => Ok(text@),
        Err(e) => Err(e),
    }
}

/// What a text operation returns for a reply with this status and buffer.
pub open spec fn text_result(status: u32, bytes: Seq<u8>, capacity: int) -> Result<
    Seq<char>,
    NvmlError,
> {
    match status_error(status) {
        Some(e) => Err(e),
        None => decoded(bytes, capacity),
    }
}

/// `std::str::from_utf8`: the string that `bytes` encode, if they are UTF-8.
/// It answers with the string exactly when the bytes are well-formed UTF-8,
/// and the string's characters are those that the bytes encode.
#[verifier::external_body]
fn str_from_utf8<'a>(bytes: &'a [u8]) -> (text: Option<&'a str>)
    ensures
        text is Some <==> valid_utf8(bytes@),
        text matches Some(s) ==> s@ == decode_utf8(bytes@),
{
    match std::str::from_utf8(bytes) {
        Ok(s) => Some(s),
        Err(_) => None,
    }
}

/// An encoding has at least one byte for each character.
pub proof fn lemma_encoding_is_no_shorter(chars: Seq<char>)
    ensures
        chars.len() <= encode_utf8(chars).len(),
    decreases chars.len(),
{
    if chars.len() > 0 {
        lemma_encoding_is_no_shorter(chars.drop_first());
        assert(encode_scalar(chars[0] as u32).len() >= 1);
    }
}

/// The character with code zero is encoded as the byte zero, so text whose
/// encoding holds no zero byte holds no such character.
pub proof fn lemma_nul_char_is_nul_byte(chars: Seq<char>, i: int)
    requires
        0 <= i < chars.len(),
        chars[i] == '\0',
    ensures
        encode_utf8(chars).contains(0u8),
    decreases chars.len(),
{
    let head = encode_scalar(chars[0] as u32);
    let rest = encode_utf8(chars.drop_first());
    assert(encode_utf8(chars) == head + rest);
    if i == 0 {
        let c: u32 = chars[0] as u32;
        assert(c == 0);
        assert(has_width_1_encoding(c));
        assert(leading_byte_width_1(c) == 0u8) by (bit_vector)
            requires
                c == 0,
        ;
        assert((head + rest)[0] == 0u8);
    } else {
        lemma_nul_char_is_nul_byte(chars.drop_first(), i - 1);
        let j = choose|j: int| 0 <= j < rest.len() && rest[j] == 0u8;
        assert((head + rest)[head.len() + j] == 0u8);
    }
}

/// Text read from a buffer of `capacity` bytes leaves room for the
/// terminator, counted in bytes or in characters, and holds no terminator.
pub proof fn lemma_text_fits(bytes: Seq<u8>, capacity: int)
    ensures
        decoded(bytes, capacity) matches Ok(text) ==> {
            &&& capacity >= 1
            &&& encode_utf8(text).len() <= capacity - 1
            &&& text.len() <= capacity - 1
            &&& !encode_utf8(text).contains(0u8)
            &&& !text.contains('\0')
        },
{
    let seen = window(bytes, capacity);
    seen.index_of_first_ensures(0u8);
    if let Ok(text) = decoded(bytes, capacity) {
        let end = seen.index_of_first(0u8).unwrap();
        let prefix = seen.subrange(0, end);
        vstd::utf8::decode_utf8_encode_utf8(prefix);
        assert(encode_utf8(text) == prefix);
        lemma_encoding_is_no_shorter(text);
        assert(!prefix.contains(0u8)) by {
            if prefix.contains(0u8) {
                let j = choose|j: int| 0 <= j < prefix.len() && prefix[j] == 0u8;
                assert(seen[j] == 0u8);
            }
        }
        assert(!text.contains('\0')) by {
            if text.contains('\0') {
                let i = choose|i: int| 0 <= i < text.len() && text[i] == '\0';
                lemma_nul_char_is_nul_byte(text, i);
            }
        }
    }
}

/// Reads the text that the native library wrote into a buffer of `capacity`
/// bytes: the characters before the first terminator among the first
/// `capacity` bytes. Fails with `Encoding` if there is no terminator there,
/// or if the bytes before it are not UTF-8.
pub fn decode_text(buffer: &[u8], capacity: usize) -> (result: Result<String, NvmlError>)
    ensures
        text_view(result) == decoded(buffer@, capacity as int),
        result matches Ok(text) ==> {
            &&& encode_utf8(text@).len() <= capacity - 1
            &&& text@.len() <= capacity - 1
            &&& !text@.contains('\0')
        },
{
    let limit = if buffer.len() < capacity {
        buffer.len()
    } else {
        capacity
    };
    let ghost seen = window(buffer@, capacity as int);
    assert(seen =~= buffer@.subrange(0, limit as int));
    let mut end: usize = 0;
    while end < limit && buffer[end] != 0
        invariant
            end <= limit <= buffer@.len(),
            forall|i: int| 0 <= i < end ==> buffer@[i] != 0u8,
        decreases limit - end,
    {
        end = end + 1;
    }
    proof {
        seen.index_of_first_ensures(0u8);
        lemma_text_fits(buffer@, capacity as int);
    }
    if end == limit {
        assert(!seen.contains(0u8)) by {
            if seen.contains(0u8) {
                let j = choose|j: int| 0 <= j < seen.len() && seen[j] == 0u8;
                assert(buffer@[j] == 0u8);
            }
        }
        return Err(NvmlError::Encoding);
    }
    assert(seen[end as int] == 0u8);
    assert(seen.index_of_first(0u8) == Some(end as int)) by {
        let first = seen.index_of_first(0u8).unwrap();
        if first < end {
            assert(buffer@[first] == seen[first]);
        }
    }
    let prefix = slice_subrange(buffer, 0, end);
    assert(prefix@ =~= seen.subrange(0, end as int));
    match str_from_utf8(prefix) {
        Some(text) => Ok(text.to_owned()),
        None => Err(NvmlError::Encoding),
    }
}

/// A buffer of `capacity` zero bytes.
pub fn zeroed_buffer(capacity: u32) -> (buffer: Vec<u8>)
    ensures
        buffer@ == Seq::new(capacity as nat, |i: int| 0u8),
{
    let buffer = vec![0u8; capacity as usize];
    assert(buffer@ =~= Seq::new(capacity as nat, |i: int| 0u8));
    buffer
}

/// Whether `call` is the call that a text operation makes: through `entry`,
/// about `target`, with a fresh zeroed buffer of exactly `capacity` bytes.
pub open spec fn is_text_call<H>(
    call: NativeCall<TextRequest<H>>,
    entry: EntryPoint,
    target: H,
    capacity: u32,
) -> bool {
    &&& call.entry == entry
    &&& call.args.target == target
    &&& call.args.capacity == capacity
    &&& call.args.buffer@ == Seq::new(capacity as nat, |i: int| 0u8)
}

/// What holds of the result of a text operation that needs `entry`: without
/// the entry point it is `FunctionNotFound`; with it, it is what one reply of
/// `native` to the operation's call gives.
pub open spec fn text_post<H, N: FnOnce(NativeCall<TextRequest<H>>) -> NativeReply<Vec<u8>>>(
    entry: Option<EntryPoint>,
    target: H,
    capacity: u32,
    native: N,
    result: Result<String, NvmlError>,
) -> bool {
    match entry {
        None => text_view(result) == Err::<Seq<char>, NvmlError>(NvmlError::FunctionNotFound),
        Some(e) => exists|call: NativeCall<TextRequest<H>>, reply: NativeReply<Vec<u8>>|
            {
                &&& is_text_call(call, e, target, capacity)
                &&& #[trigger] native.ensures((call,), reply)
                &&& text_view(result) == text_result(reply.status, reply.output@, capacity as int)
            },
    }
}

/// What a text operation returns for `reply`: the error that the status
/// stands for, or, after success, the text in the buffer.
pub fn text_from_reply(reply: NativeReply<Vec<u8>>, capacity: u32) -> (result: Result<
    String,
    NvmlError,
>)
    ensures
        text_view(result) == text_result(reply.status, reply.output@, capacity as int),
        result matches Ok(text) ==> {
            &&& encode_utf8(text@).len() <= capacity - 1
            &&& text@.len() <= capacity - 1
            &&& !text@.contains('\0')
        },
{
    match translate(reply.status) {
        Ok(()) => decode_text(reply.output.as_slice(), capacity as usize),
        Err(e) => Err(e),
    }
}

/// Makes one native call that writes text: fails with `FunctionNotFound`,
/// before any buffer is made, where the entry point is absent; else makes a
/// zeroed buffer of `capacity` bytes, calls `native` once with it, and reads
/// the text from the buffer that comes back.
pub fn text_call<H, N>(entry: Option<EntryPoint>, target: H, capacity: u32, native: N) -> (result:
    Result<String, NvmlError>) where N: FnOnce(NativeCall<TextRequest<H>>) -> NativeReply<Vec<u8>>
    requires
        entry matches Some(e) ==> forall|call: NativeCall<TextRequest<H>>|
            is_text_call(call, e, target, capacity) ==> #[trigger] native.requires((call,)),
    ensures
        text_post(entry, target, capacity, native, result),
        result matches Ok(text) ==> {
            &&& encode_utf8(text@).len() <= capacity - 1
            &&& text@.len() <= capacity - 1
            &&& !text@.contains('\0')
        },
{
    let entry = match nvml_sym(entry) {
        Ok(e) => e,
        Err(e) => {
            return Err(e);
        },
    };
    let buffer = zeroed_buffer(capacity);
    let call = NativeCall { entry, args: TextRequest { target, buffer, capacity } };
    let ghost sent = call;
    let reply = native(call);
    let ghost got = reply;
    let result = text_from_reply(reply, capacity);
    assert(is_text_call(sent, entry, target, capacity) && native.ensures((sent,), got));
    result
}

/// With a native library that answers a call in one way only, an operation
/// has one result only: asking twice gives the same.
pub proof fn lemma_same_call_same_result<A, T, U, N: FnOnce(NativeCall<A>) -> NativeReply<T>>(
    entry: Option<EntryPoint>,
    args: A,
    native: N,
    shape: spec_fn(T) -> Result<U, NvmlError>,
    first: Result<U, NvmlError>,
    second: Result<U, NvmlError>,
)
    requires
        boundary_post(entry, args, native, shape, first),
        boundary_post(entry, args, native, shape, second),
        forall|call: NativeCall<A>, r1: NativeReply<T>, r2: NativeReply<T>|
            native.ensures((call,), r1) && native.ensures((call,), r2) ==> r1 == r2,
    ensures
        first == second,
{
}

/// The same for a text operation, where the native library's answer to a
/// call may depend on what the buffer holds but not on which buffer it is.
pub proof fn lemma_same_call_same_text<
    H,
    N: FnOnce(NativeCall<TextRequest<H>>) -> NativeReply<Vec<u8>>,
>(
    entry: Option<EntryPoint>,
    target: H,
    capacity: u32,
    native: N,
    first: Result<String, NvmlError>,
    second: Result<String, NvmlError>,
)
    requires
        text_post(entry, target, capacity, native, first),
        text_post(entry, target, capacity, native, second),
        forall|
            c1: NativeCall<TextRequest<H>>,
            c2: NativeCall<TextRequest<H>>,
            r1: NativeReply<Vec<u8>>,
            r2: NativeReply<Vec<u8>>,
        |
            #![trigger native.ensures((c1,), r1), native.ensures((c2,), r2)]
            native.ensures((c1,), r1) && native.ensures((c2,), r2) && c1.entry == c2.entry
                && c1.args.target == c2.args.target && c1.args.capacity == c2.args.capacity
                && c1.args.buffer@ == c2.args.buffer@ ==> r1.status == r2.status && r1.output@
                == r2.output@,
    ensures
        text_view(first) == text_view(second),
{
}

/// The same for a list operation, where the native library's answer to a
/// call may depend on what the list holds but not on which list it is.
pub proof fn lemma_same_call_same_list<
    H,
    N: FnOnce(NativeCall<ListRequest<H>>) -> NativeReply<Listed>,
>(
    entry: Option<EntryPoint>,
    target: H,
    capacity: u32,
    native: N,
    first: Result<Vec<u32>, NvmlError>,
    second: Result<Vec<u32>, NvmlError>,
)
    requires
        list_post(entry, target, capacity, native, first),
        list_post(entry, target, capacity, native, second),
        forall|
            c1: NativeCall<ListRequest<H>>,
            c2: NativeCall<ListRequest<H>>,
            r1: NativeReply<Listed>,
            r2: NativeReply<Listed>,
        |
            #![trigger native.ensures((c1,), r1), native.ensures((c2,), r2)]
            native.ensures((c1,), r1) && native.ensures((c2,), r2) && c1.entry == c2.entry
                && c1.args.target == c2.args.target && c1.args.capacity == c2.args.capacity
                && c1.args.items@ == c2.args.items@ ==> r1.status == r2.status && r1.output.count
                == r2.output.count && r1.output.items@ == r2.output.items@,
    ensures
        list_view(first) == list_view(second),
{
}

/// Where the entry point is absent the result is `FunctionNotFound`,
/// whatever the native library would have answered.
pub proof fn lemma_absent_symbol_fails<A, T, U, N: FnOnce(NativeCall<A>) -> NativeReply<T>>(
    args: A,
    native: N,
    shape: spec_fn(T) -> Result<U, NvmlError>,
    result: Result<U, NvmlError>,
)
    requires
        boundary_post(None, args, native, shape, result),
    ensures
        result == Err::<U, NvmlError>(NvmlError::FunctionNotFound),
{
}

/// Where the native library refuses the call, the result is the error that
/// its status stands for: never a success, and never a made-up value.
pub proof fn lemma_refused_call_fails<A, T, U, N: FnOnce(NativeCall<A>) -> NativeReply<T>>(
    entry: EntryPoint,
    args: A,
    native: N,
    shape: spec_fn(T) -> Result<U, NvmlError>,
    result: Result<U, NvmlError>,
    status: u32,
)
    requires
        boundary_post(Some(entry), args, native, shape, result),
        status != 0,
        forall|reply: NativeReply<T>| #[trigger]
            native.ensures((NativeCall { entry, args },), reply) ==> reply.status == status,
    ensures
        result is Err,
        Some(result->Err_0) == status_error(status),
{
}

/// The items that a filled list of `capacity` items holds: the first `count`
/// of them, or `InsufficientSize` where the native library counts more items
/// than the list was made for, or than came back.
pub open spec fn listed(count: u32, items: Seq<u32>, capacity: u32) -> Result<
    Seq<u32>,
    NvmlError,
> {
    if count <= capacity && count <= items.len() {
        Ok(items.subrange(0, count as int))
    } else {
        Err(NvmlError::InsufficientSize)
    }
}

/// What a list operation returns for a reply with this status, count and
/// list.
pub open spec fn list_result(status: u32, count: u32, items: Seq<u32>, capacity: u32) -> Result<
    Seq<u32>,
    NvmlError,
> {
    match status_error(status) {
        Some(e) => Err(e),
        None => listed(count, items, capacity),
    }
}

/// A result that holds a list, with the list seen as a sequence.
pub open spec fn list_view(result: Result<Vec<u32>, NvmlError>) -> Result<Seq<u32>, NvmlError> {
    match result {
        Ok(items) => Ok(items@),
        Err(e) => Err(e),
    }
}

/// Whether `call` is the call that a list operation makes: through `entry`,
/// about `target`, with a fresh zeroed list of exactly `capacity` items.
pub open spec fn is_list_call<H>(
    call: NativeCall<ListRequest<H>>,
    entry: EntryPoint,
    target: H,
    capacity: u32,
) -> bool {
    &&& call.entry == entry
    &&& call.args.target == target
    &&& call.args.capacity == capacity
    &&& call.args.items@ == Seq::new(capacity as nat, |i: int| 0u32)
}

/// What holds of the result of a list operation that needs `entry`: without
/// the entry point it is `FunctionNotFound`; with it, it is what one reply of
/// `native` to the operation's call gives.
pub open spec fn list_post<H, N: FnOnce(NativeCall<ListRequest<H>>) -> NativeReply<Listed>>(
    entry: Option<EntryPoint>,
    target: H,
    capacity: u32,
    native: N,
    result: Result<Vec<u32>, NvmlError>,
) -> bool {
    match entry {
        None => list_view(result) == Err::<Seq<u32>, NvmlError>(NvmlError::FunctionNotFound),
        Some(e) => exists|call: NativeCall<ListRequest<H>>, reply: NativeReply<Listed>|
            {
                &&& is_list_call(call, e, target, capacity)
                &&& #[trigger] native.ensures((call,), reply)
                &&& list_view(result) == list_result(
                    reply.status,
                    reply.output.count,
                    reply.output.items@,
                    capacity,
                )
            },
    }
}

/// What a list operation returns for `reply`: the error that the status
/// stands for, or, after success, the items that the native library counted.
pub fn list_from_reply(reply: NativeReply<Listed>, capacity: u32) -> (result: Result<
    Vec<u32>,
    NvmlError,
>)
    ensures
        list_view(result) == list_result(
            reply.status,
            reply.output.count,
            reply.output.items@,
            capacity,
        ),
        result matches Ok(items) ==> items@.len() <= capacity,
{
    match translate(reply.status) {
        Ok(()) => {
            let count = reply.output.count;
            let mut items = reply.output.items;
            if count <= capacity && count as usize <= items.len() {
                items.truncate(count as usize);
                Ok(items)
            } else {
                Err(NvmlError::InsufficientSize)
            }
        },
        Err(e) => Err(e),
    }
}

/// Makes one native call that fills a list of the caller's size: fails with
/// `FunctionNotFound`, before any list is made, where the entry point is
/// absent; else makes a zeroed list of `capacity` items, calls `native` once
/// with it, and returns the items that the native library counted. Where the
/// native library says that the list is too small, that is the result: the
/// call is not made again with a larger one.
pub fn list_call<H, N>(entry: Option<EntryPoint>, target: H, capacity: u32, native: N) -> (result:
    Result<Vec<u32>, NvmlError>) where N: FnOnce(NativeCall<ListRequest<H>>) -> NativeReply<Listed>
    requires
        entry matches Some(e) ==> forall|call: NativeCall<ListRequest<H>>|
            is_list_call(call, e, target, capacity) ==> #[trigger] native.requires((call,)),
    ensures
        list_post(entry, target, capacity, native, result),
        result matches Ok(items) ==> items@.len() <= capacity,
{
    let entry = match nvml_sym(entry) {
        Ok(e) => e,
        Err(e) => {
            return Err(e);
        },
    };
    let items = vec![0u32; capacity as usize];
    assert(items@ =~= Seq::new(capacity as nat, |i: int| 0u32));
    let call = NativeCall { entry, args: ListRequest { target, items, capacity } };
    let ghost sent = call;
    let reply = native(call);
    let ghost got = reply;
    let result = list_from_reply(reply, capacity);
    assert(is_list_call(sent, entry, target, capacity) && native.ensures((sent,), got));
    result
}

/// Where the native library refuses the call of a text operation, the
/// result is the error that its status stands for, whatever the buffer
/// holds.
pub proof fn lemma_refused_text_call_fails<
    H,
    N: FnOnce(NativeCall<TextRequest<H>>) -> NativeReply<Vec<u8>>,
>(
    entry: EntryPoint,
    target: H,
    capacity: u32,
    native: N,
    result: Result<String, NvmlError>,
    status: u32,
)
    requires
        text_post(Some(entry), target, capacity, native, result),
        status != 0,
        forall|call: NativeCall<TextRequest<H>>, reply: NativeReply<Vec<u8>>| #[trigger]
            native.ensures((call,), reply) ==> reply.status == status,
    ensures
        result is Err,
        Some(result->Err_0) == status_error(status),
{
}

} // verus!
