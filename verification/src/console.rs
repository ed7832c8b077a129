//! The console output service binding and the writers layered over it.
//!
//! The firmware text-output table exposes its two operations as function
//! pointers at ABI-fixed byte offsets.  The binding here keeps those slot
//! values and models the console itself: every unit handed to the service is
//! recorded in order, so contracts (and tests) can speak about exactly what
//! reached the screen.  The writer translates each line feed into a carriage
//! return followed by a line feed, since the service has no native line-feed
//! semantics.

use vstd::prelude::*;

verus! {

use crate::bytes_le::{le_u64_at, read_u64_at};
use crate::status::EFIError;
use crate::wide_text::{char_to_unit, char_unit, first_null, CChar};
use vstd::string::StrSliceExecFns;

/// Byte offset of the write-string dispatch slot within the text-output
/// table, mandated by the firmware ABI.
pub const OUTPUT_STRING_OFFSET: usize = 8;

/// Byte offset of the clear-screen dispatch slot within the text-output
/// table, mandated by the firmware ABI.
pub const CLEAR_SCREEN_OFFSET: usize = 48;

/// Bytes of the text-output table this binding reads.
pub const TEXT_OUTPUT_TABLE_SIZE: usize = 56;

/// The units one character contributes to the console stream: a line feed
/// becomes carriage return then line feed; a character whose 16-bit unit is
/// null ends the write-string call early and contributes nothing; any other
/// character contributes its single unit.
pub open spec fn crlf_one(c: char) -> Seq<u16> {
    if c == '\n' {
        seq![13u16, 10u16]
    } else if char_unit(c) == 0 {
        Seq::empty()
    } else {
        seq![char_unit(c)]
    }
}

/// The console-wire rendering of a whole text: each character rendered by
/// [`crlf_one`], in order.
pub open spec fn crlf_render(s: Seq<char>) -> Seq<u16>
    decreases s.len(),
{
    if s.len() == 0 {
        Seq::empty()
    } else {
        crlf_one(s[0]) + crlf_render(s.skip(1))
    }
}

/// Rendering one more character appends that character's rendering.
pub proof fn lemma_crlf_render_push(s: Seq<char>, c: char)
    ensures
        crlf_render(s.push(c)) == crlf_render(s) + crlf_one(c),
    decreases s.len(),
{
    if s.len() == 0 {
        assert(s.push(c)[0] == c);
        assert(s.push(c).skip(1) =~= Seq::<char>::empty());
        assert(s.push(c).len() == 1);
        assert(crlf_render(s.push(c)) == crlf_one(c) + crlf_render(s.push(c).skip(1)));
        assert(crlf_render(Seq::<char>::empty()) == Seq::<u16>::empty());
        assert(crlf_render(s.push(c)) =~= crlf_render(s) + crlf_one(c));
    } else {
        lemma_crlf_render_push(s.skip(1), c);
        assert(s.push(c)[0] == s[0]);
        assert(s.push(c).skip(1) =~= s.skip(1).push(c));
        assert(crlf_render(s.push(c)) =~= crlf_render(s) + crlf_one(c));
    }
}

/// The console output service binding: the two dispatch-slot values read
/// from the firmware table, and the recorded stream of units the service
/// has been handed since the screen was last cleared.
#[derive(Debug)]
pub struct EFISimpleTextOutputProtocol {
    /// Value of the write-string function-pointer slot (table byte 8).
    pub output_string_handle: u64,
    /// Value of the clear-screen function-pointer slot (table byte 48).
    pub clear_screen_handle: u64,
    /// Every unit written to the console since the last clear, in order.
    pub written: Vec<u16>,
}

impl Clone for EFISimpleTextOutputProtocol {
    /// Copy the binding, the recorded stream included.
    fn clone(&self) -> (r: Self)
        ensures
            r.output_string_handle == self.output_string_handle,
            r.clear_screen_handle == self.clear_screen_handle,
            r.written@ == self.written@,
    {
        EFISimpleTextOutputProtocol {
            output_string_handle: self.output_string_handle,
            clear_screen_handle: self.clear_screen_handle,
            written: self.written.clone(),
        }
    }
}

impl EFISimpleTextOutputProtocol {
    /// A console with zeroed dispatch slots and nothing written: the stub a
    /// test records against.
    pub fn new() -> (r: Self)
        ensures
            r.output_string_handle == 0,
            r.clear_screen_handle == 0,
            r.written@ == Seq::<u16>::empty(),
    {
        EFISimpleTextOutputProtocol {
            output_string_handle: 0,
            clear_screen_handle: 0,
            written: Vec::new(),
        }
    }

    /// Bind to a firmware text-output table image, reading both dispatch
    /// slots at their mandated offsets.
    pub fn from_image(img: &[u8]) -> (r: Self)
        requires
            img@.len() >= TEXT_OUTPUT_TABLE_SIZE,
        ensures
            r.output_string_handle == le_u64_at(img@, OUTPUT_STRING_OFFSET as int),
            r.clear_screen_handle == le_u64_at(img@, CLEAR_SCREEN_OFFSET as int),
            r.written@ == Seq::<u16>::empty(),
    {
        EFISimpleTextOutputProtocol {
            output_string_handle: read_u64_at(img, OUTPUT_STRING_OFFSET),
            clear_screen_handle: read_u64_at(img, CLEAR_SCREEN_OFFSET),
            written: Vec::new(),
        }
    }

    /// Write a null-terminated wide string: every unit before the
    /// terminator reaches the console, in order.
    pub fn output_string(&mut self, c: &CChar)
        requires
            c.wf(),
        ensures
            final(self).written@ == old(self).written@ + c@.subrange(0, first_null(c@)),
            final(self).output_string_handle == old(self).output_string_handle,
            final(self).clear_screen_handle == old(self).clear_screen_handle,
    {
        let s = c.as_slice();
        let n: usize = s.len();
        let mut k: usize = 0;
        while k < n
            invariant
                n == s@.len(),
                0 <= k <= n,
                self.written@ == old(self).written@ + s@.subrange(0, k as int),
                self.output_string_handle == old(self).output_string_handle,
                self.clear_screen_handle == old(self).clear_screen_handle,
            decreases n - k,
        {
            let u = s[k];
            self.written.push(u);
            proof {
                assert(self.written@ =~= old(self).written@ + s@.subrange(0, k + 1));
            }
            k += 1;
        }
        proof {
            assert(s@.subrange(0, n as int) =~= s@);
        }
    }

    /// Write one character as its single 16-bit unit.  A character whose
    /// unit is null terminates the written string immediately and so puts
    /// nothing on the console.
    pub fn write_char(&mut self, c: char)
        ensures
            final(self).written@ == old(self).written@ + (if char_unit(c) == 0 {
                Seq::<u16>::empty()
            } else {
                seq![char_unit(c)]
            }),
            final(self).output_string_handle == old(self).output_string_handle,
            final(self).clear_screen_handle == old(self).clear_screen_handle,
    {
        let unit = char_to_unit(c);
        let mut buf: Vec<u16> = Vec::new();
        buf.push(unit);
        buf.push(0);
        proof {
            assert(buf@[1] == 0);
        }
        let s = CChar::new(buf);
        proof {
            if char_unit(c) == 0 {
                assert(s@.subrange(0, first_null(s@)) =~= Seq::<u16>::empty());
            } else {
                assert(s@.skip(1) =~= seq![0u16]);
                assert(seq![0u16][0] == 0);
                assert(first_null(seq![0u16]) == 0);
                assert(first_null(s@) == 1);
                assert(s@.subrange(0, 1) =~= seq![char_unit(c)]);
            }
        }
        self.output_string(&s);
    }

    /// Clear the screen: the recorded console stream becomes empty.
    pub fn clear_screen(&mut self)
        ensures
            final(self).written@ == Seq::<u16>::empty(),
            final(self).output_string_handle == old(self).output_string_handle,
            final(self).clear_screen_handle == old(self).clear_screen_handle,
    {
        self.written = Vec::new();
    }
}

/// A text writer over the console service: it renders ordinary text onto
/// the console wire, inserting a carriage return before each line feed.
#[derive(Debug)]
pub struct EFISimpleTextWriter {
    /// The console the writer drives.
    pub protocol: EFISimpleTextOutputProtocol,
}

impl EFISimpleTextWriter {
    /// Wrap a console service in a writer.
    pub fn new(protocol: EFISimpleTextOutputProtocol) -> (r: Self)
        ensures
            r.protocol == protocol,
    {
        EFISimpleTextWriter { protocol }
    }

    /// Write a text: its carriage-return-line-feed rendering is appended to
    /// the console stream.
    pub fn write_str(&mut self, s: &str)
        ensures
            final(self).protocol.written@ == old(self).protocol.written@ + crlf_render(s@),
            final(self).protocol.output_string_handle == old(self).protocol.output_string_handle,
            final(self).protocol.clear_screen_handle == old(self).protocol.clear_screen_handle,
    {
        let n: usize = s.unicode_len();
        let mut i: usize = 0;
        proof {
            assert(s@.subrange(0, 0) =~= Seq::<char>::empty());
        }
        while i < n
            invariant
                n == s@.len(),
                0 <= i <= n,
                self.protocol.written@ == old(self).protocol.written@ + crlf_render(
                    s@.subrange(0, i as int),
                ),
                self.protocol.output_string_handle == old(self).protocol.output_string_handle,
                self.protocol.clear_screen_handle == old(self).protocol.clear_screen_handle,
            decreases n - i,
        {
            let c = s.get_char(i);
            if c == '\n' {
                self.protocol.write_char('\r');
            }
            self.protocol.write_char(c);
            proof {
                lemma_crlf_render_push(s@.subrange(0, i as int), c);
                assert(s@.subrange(0, i + 1) =~= s@.subrange(0, i as int).push(c));
                assert(self.protocol.written@ =~= old(self).protocol.written@ + crlf_render(
                    s@.subrange(0, i + 1),
                ));
            }
            i += 1;
        }
        proof {
            assert(s@.subrange(0, n as int) =~= s@);
        }
    }
}

/// The process-wide console writer slot: uninitialized at program start,
/// made ready exactly once, then borrowed exclusively around each write.
#[derive(Debug)]
pub struct GlobalWriter {
    /// The writer, present exactly while the slot is ready.
    pub writer: Option<EFISimpleTextWriter>,
}

impl GlobalWriter {
    /// Whether the slot has been initialized.
    pub open spec fn is_ready(&self) -> bool {
        self.writer is Some
    }

    /// The units recorded by the held writer's console.
    pub open spec fn screen(&self) -> Seq<u16>
        recommends
            self.is_ready(),
    {
        self.writer.unwrap().protocol.written@
    }

    /// An uninitialized slot.
    pub fn new() -> (r: Self)
        ensures
            !r.is_ready(),
    {
        GlobalWriter { writer: None }
    }

    /// Make the slot ready.  The transition happens exactly once: the slot
    /// must still be uninitialized.
    pub fn init(&mut self, writer: EFISimpleTextWriter)
        requires
            !old(self).is_ready(),
        ensures
            final(self).is_ready(),
            final(self).writer == Some(writer),
    {
        self.writer = Some(writer);
    }

    /// Write a text through the slot.  While uninitialized the write fails
    /// loudly instead of dropping output; while ready the text's rendering
    /// is appended to the console stream.
    pub fn write_str(&mut self, s: &str) -> (r: Result<(), EFIError>)
        ensures
            !old(self).is_ready() ==> r == Err::<(), EFIError>(EFIError::WriterUninitialized)
                && *final(self) == *old(self),
            old(self).is_ready() ==> r == Ok::<(), EFIError>(()) && final(self).is_ready()
                && final(self).screen() == old(self).screen() + crlf_render(s@),
    {
        match &mut self.writer {
            None => Err(EFIError::WriterUninitialized),
            Some(w) => {
                w.write_str(s);
                Ok(())
            },
        }
    }
}

} // verus!
