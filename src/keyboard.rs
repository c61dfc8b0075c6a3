use vstd::prelude::*;
use pc_keyboard::layouts::Us104Key;
use pc_keyboard::{DecodedKey, HandleControl, Keyboard, ScancodeSet1};

verus! {

/// A key the decoder produced.
#[derive(Debug, PartialEq, Eq)]
pub enum KeyPress {
    /// A key that stands for a character.
    Unicode(char),
    /// Any other key, by its name.
    Raw(String),
}

/// What a key press is, as a plain value: its character, or the name of a
/// key that stands for none.
pub enum KeyName {
    Unicode(char),
    Raw(Seq<char>),
}

pub open spec fn key_of(k: Option<KeyPress>) -> Option<KeyName> {
    match k {
        Some(KeyPress::Unicode(c)) => Some(KeyName::Unicode(c)),
        Some(KeyPress::Raw(name)) => Some(KeyName::Raw(name@)),
        None => None,
    }
}

/// The key that the last of `bytes` gives when `bytes` are fed in turn to a
/// fresh decoder: none where that byte completes no key press.
pub uninterp spec fn key_after(bytes: Seq<u8>) -> Option<KeyName>;

/// `d` is in the state that a fresh decoder reaches once `bytes` are fed to
/// it in turn.
pub uninterp spec fn decoder_fed(d: Us104Decoder, bytes: Seq<u8>) -> bool;

/// pc_keyboard's decoder for a US 104-key layout and scancode set 1: the
/// state of a pending extended prefix and of the modifier keys.
#[verifier::external_body]
pub struct Us104Decoder {
    keyboard: Keyboard<Us104Key, ScancodeSet1>,
}

/// Relies on pc_keyboard::Keyboard::new: a decoder in its start state that
/// passes Ctrl combinations through as plain letters, as if fed nothing.
#[verifier::external_body]
fn new_us104_decoder() -> (r: Us104Decoder)
    ensures
        decoder_fed(r, Seq::empty()),
{
    Us104Decoder { keyboard: Keyboard::new(Us104Key, ScancodeSet1, HandleControl::Ignore) }
}

/// Relies on pc_keyboard::Keyboard::add_byte and Keyboard::process_keyevent:
/// the byte advances the scancode state; a key event it completes goes on to
/// the layout, which gives a key or only updates the modifiers. Both depend
/// on the bytes fed so far alone. A byte of 0x80 or more is a release (or the
/// extended prefix) and never gives a key.
#[verifier::external_body]
fn feed_byte(decoder: &mut Us104Decoder, byte: u8) -> (r: Option<KeyPress>)
    ensures
        forall|h: Seq<u8>|
            #[trigger] decoder_fed(*old(decoder), h) ==> decoder_fed(*final(decoder), h.push(byte))
                && key_of(r) == key_after(h.push(byte)),
        byte >= 0x80 ==> r is None,
{
    match decoder.keyboard.add_byte(byte) {
        Ok(Some(event)) => match decoder.keyboard.process_keyevent(event) {
            Some(DecodedKey::Unicode(c)) => Some(KeyPress::Unicode(c)),
            Some(DecodedKey::RawKey(code)) => Some(KeyPress::Raw(format!("{:?}", code))),
            None => None,
        },
        Ok(None) => None,
        Err(_) => None,
    }
}

/// The keyboard scancode decoder, with the bytes fed to it so far.
pub struct KeyDecoder {
    decoder: Us104Decoder,
    fed: Ghost<Seq<u8>>,
}

impl KeyDecoder {
    /// The scancode bytes fed so far, in order.
    pub closed spec fn history(&self) -> Seq<u8> {
        self.fed@
    }

    pub closed spec fn wf(&self) -> bool {
        decoder_fed(self.decoder, self.fed@)
    }

    pub fn new() -> (r: KeyDecoder)
        ensures
            r.wf(),
            r.history() == Seq::<u8>::empty(),
    {
        KeyDecoder { decoder: new_us104_decoder(), fed: Ghost(Seq::empty()) }
    }

    /// Feeds one scancode byte; the key it completes comes out, if any. A
    /// byte the decoder rejects gives no key.
    pub fn decode(&mut self, scancode: u8) -> (r: Option<KeyPress>)
        requires
            old(self).wf(),
        ensures
            final(self).wf(),
            final(self).history() == old(self).history().push(scancode),
            key_of(r) == key_after(final(self).history()),
            scancode >= 0x80 ==> r is None,
    {
        let r = feed_byte(&mut self.decoder, scancode);
        self.fed = Ghost(self.fed@.push(scancode));
        r
    }
}

} // verus!
