//! Text output over the byte emitter.
//!
//! Text reaches the transmitter as its UTF-8 bytes, one store per byte, in
//! order. For text of single-byte characters that is one store per character.

use vstd::prelude::*;
use vstd::utf8::encode_utf8;
use crate::uart::{putc, Store, Uart};

verus! {

/// The line terminator that [`println`] appends.
pub const NEWLINE: u8 = 0x0A;

/// One store to `addr` for each of `bytes`, in order.
pub open spec fn stores_to(addr: usize, bytes: Seq<u8>) -> Seq<Store> {
    Seq::new(bytes.len(), |i: int| Store { addr, value: bytes[i] })
}

/// The bytes that stand for `text` on the wire.
pub open spec fn text_bytes(text: Seq<char>) -> Seq<u8> {
    encode_utf8(text)
}

/// The trace that follows `before` once `text` has been printed to `tx`.
pub open spec fn after_print(before: Seq<Store>, tx: usize, text: Seq<char>) -> Seq<Store> {
    before + stores_to(tx, text_bytes(text))
}

/// The trace that follows `before` once `text` and a line end have been
/// printed to `tx`.
pub open spec fn after_println(before: Seq<Store>, tx: usize, text: Seq<char>) -> Seq<Store> {
    before + stores_to(tx, text_bytes(text).push(NEWLINE))
}

/// Transmits one chunk of text: each of its bytes through [`putc`], first to
/// last. There is no failure path.
pub fn write_str(uart: &mut Uart, s: &str)
    ensures
        final(uart).tx() == old(uart).tx(),
        final(uart)@ == after_print(old(uart)@, old(uart).tx(), s@),
{
    let bytes = s.as_bytes();
    let mut i: usize = 0;
    while i < bytes.len()
        invariant
            i <= bytes@.len(),
            bytes@ == text_bytes(s@),
            uart.tx() == old(uart).tx(),
            uart@ == old(uart)@ + stores_to(old(uart).tx(), bytes@.take(i as int)),
        decreases bytes@.len() - i,
    {
        putc(uart, bytes[i]);
        i += 1;
        assert(uart@ =~= old(uart)@ + stores_to(old(uart).tx(), bytes@.take(i as int)));
    }
    assert(bytes@.take(i as int) =~= bytes@);
}

/// Prints already formatted text, with nothing before, between or after its
/// bytes.
pub fn print(uart: &mut Uart, s: &str)
    ensures
        final(uart).tx() == old(uart).tx(),
        final(uart)@ == after_print(old(uart)@, old(uart).tx(), s@),
{
    write_str(uart, s);
}

/// Prints already formatted text and then one [`NEWLINE`]. With empty text
/// only the line end goes out.
pub fn println(uart: &mut Uart, s: &str)
    ensures
        final(uart).tx() == old(uart).tx(),
        final(uart)@ == after_println(old(uart)@, old(uart).tx(), s@),
{
    print(uart, s);
    putc(uart, NEWLINE);
    assert(uart@ =~= after_println(old(uart)@, old(uart).tx(), s@));
}

} // verus!
