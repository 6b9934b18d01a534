//! What relates the entry points to one another, over the traces that their
//! contracts speak of.

use vstd::prelude::*;
use vstd::utf8::{encode_scalar, encode_utf8, is_ascii_chars, is_ascii_chars_encode_utf8};
use crate::printer::{after_print, after_println, stores_to, text_bytes, NEWLINE};
use crate::uart::{payload, Store, LINE_STATUS_OFFSET};

verus! {

/// The stores of `after` that were issued since `before`.
pub open spec fn emitted(before: Seq<Store>, after: Seq<Store>) -> Seq<Store> {
    after.subrange(before.len() as int, after.len() as int)
}

/// Printing leaves what was issued earlier in place and adds the bytes of the
/// text, each once and in order, with nothing before, between or after them.
pub proof fn lemma_print_emits_text(before: Seq<Store>, tx: usize, text: Seq<char>)
    ensures
        after_print(before, tx, text).take(before.len() as int) == before,
        emitted(before, after_print(before, tx, text)) == stores_to(tx, text_bytes(text)),
        payload(emitted(before, after_print(before, tx, text))) == text_bytes(text),
{
    let after = after_print(before, tx, text);
    assert(after.take(before.len() as int) =~= before);
    assert(emitted(before, after) =~= stores_to(tx, text_bytes(text)));
    assert(payload(stores_to(tx, text_bytes(text))) =~= text_bytes(text));
}

/// Every store that printing adds goes to the transmit register: none goes
/// to the line-status register or anywhere else.
pub proof fn lemma_print_stores_to_transmit_only(before: Seq<Store>, tx: usize, text: Seq<char>)
    ensures
        forall|i: int|
            before.len() <= i < after_print(before, tx, text).len() ==> {
                &&& (#[trigger] after_print(before, tx, text)[i]).addr == tx
                &&& after_print(before, tx, text)[i].addr != tx + LINE_STATUS_OFFSET
            },
        forall|i: int|
            before.len() <= i < after_println(before, tx, text).len() ==> {
                &&& (#[trigger] after_println(before, tx, text)[i]).addr == tx
                &&& after_println(before, tx, text)[i].addr != tx + LINE_STATUS_OFFSET
            },
{
}

/// Text of single-byte characters goes out as one byte per character: the
/// character's code.
pub proof fn lemma_single_byte_text(text: Seq<char>)
    requires
        is_ascii_chars(text),
    ensures
        text_bytes(text) == Seq::new(text.len(), |i: int| text[i] as u8),
{
    is_ascii_chars_encode_utf8(text);
    assert(text_bytes(text) =~= Seq::new(text.len(), |i: int| text[i] as u8));
}

/// Printing a line of no text issues exactly one store: the line end.
pub proof fn lemma_println_of_nothing(before: Seq<Store>, tx: usize, text: Seq<char>)
    requires
        text.len() == 0,
    ensures
        after_println(before, tx, text) == before.push(Store { addr: tx, value: NEWLINE }),
        payload(emitted(before, after_println(before, tx, text))) == seq![NEWLINE],
{
    let after = after_println(before, tx, text);
    assert(after =~= before.push(Store { addr: tx, value: NEWLINE }));
    assert(payload(emitted(before, after)) =~= seq![NEWLINE]);
}

/// A printed line is the printed text followed by exactly one line end.
pub proof fn lemma_println_is_print_then_newline(before: Seq<Store>, tx: usize, text: Seq<char>)
    ensures
        after_println(before, tx, text) == after_print(before, tx, text).push(
            Store { addr: tx, value: NEWLINE },
        ),
        payload(emitted(before, after_println(before, tx, text))) == text_bytes(text).push(NEWLINE),
{
    let after = after_println(before, tx, text);
    assert(after =~= after_print(before, tx, text).push(Store { addr: tx, value: NEWLINE }));
    assert(payload(emitted(before, after)) =~= text_bytes(text).push(NEWLINE));
}

/// What a print adds does not depend on what was issued before it, so a
/// second identical print adds the same stores again.
pub proof fn lemma_print_keeps_no_state(
    first: Seq<Store>,
    second: Seq<Store>,
    tx: usize,
    text: Seq<char>,
)
    ensures
        emitted(first, after_print(first, tx, text)) == emitted(
            second,
            after_print(second, tx, text),
        ),
        after_print(after_print(first, tx, text), tx, text) == first + stores_to(
            tx,
            text_bytes(text),
        ) + stores_to(tx, text_bytes(text)),
{
    lemma_print_emits_text(first, tx, text);
    lemma_print_emits_text(second, tx, text);
}

/// The bytes of two texts in a row are the bytes of the first followed by
/// those of the second.
pub proof fn lemma_text_bytes_concat(head: Seq<char>, tail: Seq<char>)
    ensures
        text_bytes(head + tail) == text_bytes(head) + text_bytes(tail),
    decreases head.len(),
{
    if head.len() == 0 {
        assert(head + tail =~= tail);
        assert(text_bytes(head) + text_bytes(tail) =~= text_bytes(tail));
    } else {
        lemma_text_bytes_concat(head.drop_first(), tail);
        assert((head + tail).drop_first() =~= head.drop_first() + tail);
        assert((head + tail)[0] == head[0]);
        assert(text_bytes(head + tail) =~= encode_scalar(head[0] as u32) + (text_bytes(
            head.drop_first(),
        ) + text_bytes(tail)));
        assert(text_bytes(head + tail) =~= text_bytes(head) + text_bytes(tail));
    }
}

/// Printing a text in two chunks, one after the other, issues the same stores
/// as printing it whole.
pub proof fn lemma_print_in_chunks(before: Seq<Store>, tx: usize, head: Seq<char>, tail: Seq<char>)
    ensures
        after_print(after_print(before, tx, head), tx, tail) == after_print(
            before,
            tx,
            head + tail,
        ),
{
    lemma_text_bytes_concat(head, tail);
    assert(after_print(after_print(before, tx, head), tx, tail) =~= after_print(
        before,
        tx,
        head + tail,
    ));
}

} // verus!
