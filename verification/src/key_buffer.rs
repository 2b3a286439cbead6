use vstd::prelude::*;

verus! {

use vstd::math::min;

/// The wire shape of one USB boot-protocol keyboard report: a modifier
/// bitmask, a reserved zero byte, and six keycode slots, zero-padded.
#[derive(Debug, Copy, Clone, PartialEq, Eq, Hash)]
pub struct KeyReport {
    pub modifier: u8,
    pub keycodes: [u8; 6],
}

impl KeyReport {
    /// The 8-byte payload sent to the host: modifier, reserved zero, then the
    /// six keycode slots.
    pub fn to_bytes(&self) -> (bytes: Vec<u8>)
        ensures
            bytes@ == seq![self.modifier, 0u8] + self.keycodes@,
    {
        let mut bytes: Vec<u8> = Vec::new();
        bytes.push(self.modifier);
        bytes.push(0u8);
        let mut i: usize = 0;
        while i < 6
            invariant
                i <= 6,
                bytes@ == seq![self.modifier, 0u8] + self.keycodes@.take(i as int),
            decreases 6 - i,
        {
            bytes.push(self.keycodes[i]);
            proof {
                assert(self.keycodes@.take(i + 1) =~= self.keycodes@.take(i as int).push(
                    self.keycodes@[i as int],
                ));
                assert(bytes@ =~= seq![self.modifier, 0u8] + self.keycodes@.take(i + 1));
            }
            i = i + 1;
        }
        proof {
            assert(self.keycodes@.take(6) =~= self.keycodes@);
        }
        bytes
    }
}

/// The abstract content of one rendered report.
#[verifier::ext_equal]
pub ghost struct ReportView {
    pub modifier: u8,
    pub keys: Seq<u8>,
}

impl View for KeyReport {
    type V = ReportView;

    open spec fn view(&self) -> ReportView {
        ReportView { modifier: self.modifier, keys: self.keycodes@ }
    }
}

/// The abstract content of the key buffer: the modifier mask and the held
/// plain keycodes, oldest first.
#[verifier::ext_equal]
pub ghost struct KeyBufferView {
    pub modifier: u8,
    pub held: Seq<u8>,
}

/// What a press does to the held sequence: append while fewer than six keys
/// are held; drop the new key when the buffer is full.
pub open spec fn buf_press(held: Seq<u8>, key_code: u8) -> Seq<u8> {
    if held.len() < 6 {
        held.push(key_code)
    } else {
        held
    }
}

/// What a release does to the held sequence: remove the first occurrence of
/// the keycode, keeping the order of the others; leave the sequence unchanged
/// when the keycode is not held.
pub open spec fn buf_release(held: Seq<u8>, key_code: u8) -> Seq<u8> {
    held.remove_value(key_code)
}

/// The six keycode slots of the wire report: the held keycodes, zero-padded.
pub open spec fn pad_report(held: Seq<u8>) -> Seq<u8>
    recommends
        held.len() <= 6,
{
    Seq::new(6, |i: int| if i < held.len() { held[i] } else { 0u8 })
}

/// The report a buffer state renders to.
pub open spec fn spec_render(buffer: KeyBufferView) -> ReportView {
    ReportView { modifier: buffer.modifier, keys: pad_report(buffer.held) }
}

/// The held sequence after pressing each keycode of `codes` in order.
pub open spec fn press_all(held: Seq<u8>, codes: Seq<u8>) -> Seq<u8>
    decreases codes.len(),
{
    if codes.len() == 0 {
        held
    } else {
        press_all(buf_press(held, codes[0]), codes.drop_first())
    }
}

/// The held sequence after releasing each keycode of `codes` in order.
pub open spec fn release_all(held: Seq<u8>, codes: Seq<u8>) -> Seq<u8>
    decreases codes.len(),
{
    if codes.len() == 0 {
        held
    } else {
        release_all(buf_release(held, codes[0]), codes.drop_first())
    }
}

/// Pressing a run of keycodes appends them in arrival order until the six
/// slots are full, and drops the rest.
pub proof fn lemma_press_all(held: Seq<u8>, codes: Seq<u8>)
    requires
        held.len() <= 6,
    ensures
        press_all(held, codes) == held + codes.take(min(codes.len() as int, 6 - held.len())),
    decreases codes.len(),
{
    if codes.len() == 0 {
        assert(press_all(held, codes) =~= held + codes.take(0));
    } else if held.len() < 6 {
        lemma_press_all(held.push(codes[0]), codes.drop_first());
        let k = min(codes.len() as int, 6 - held.len());
        assert(held.push(codes[0]) + codes.drop_first().take(
            min(codes.drop_first().len() as int, 6 - held.push(codes[0]).len()),
        ) =~= held + codes.take(k));
    } else {
        lemma_press_all(held, codes.drop_first());
        assert(held + codes.drop_first().take(0) =~= held + codes.take(0));
    }
}

/// Saturation: pressing any run of keycodes into an empty buffer leaves
/// exactly the first six held, by arrival order; later presses are dropped.
pub proof fn lemma_buffer_saturation(codes: Seq<u8>)
    ensures
        codes.len() >= 6 ==> press_all(Seq::empty(), codes) == codes.take(6),
        codes.len() < 6 ==> press_all(Seq::empty(), codes) == codes,
{
    lemma_press_all(Seq::empty(), codes);
    if codes.len() >= 6 {
        assert(Seq::empty() + codes.take(6) =~= codes.take(6));
    } else {
        assert(Seq::empty() + codes.take(codes.len() as int) =~= codes);
    }
}

/// Releasing, in any order, one occurrence of every held keycode empties the
/// held sequence, provided no keycode is held twice.
proof fn lemma_release_all_empties(held: Seq<u8>, releases: Seq<u8>)
    requires
        held.no_duplicates(),
        releases.to_multiset() == held.to_multiset(),
    ensures
        release_all(held, releases) == Seq::<u8>::empty(),
    decreases releases.len(),
{
    broadcast use vstd::seq_lib::group_to_multiset_ensures;
    broadcast use vstd::multiset::group_multiset_axioms;

    if releases.len() == 0 {
        assert(releases.to_multiset().len() == releases.len());
        assert(held.to_multiset().len() == held.len());
        assert(held.len() == 0);
        assert(held =~= Seq::<u8>::empty());
    } else {
        let code = releases[0];
        assert(releases.contains(code));
        assert(held.to_multiset().count(code) > 0);
        assert(held.contains(code));
        held.index_of_first_ensures(code);
        let first = held.index_of_first(code)->Some_0;
        let next = held.remove(first);
        assert(next.to_multiset() =~= held.to_multiset().remove(code));
        assert(releases.drop_first() =~= releases.remove(0));
        assert(releases.drop_first().to_multiset() =~= releases.to_multiset().remove(code));
        held.lemma_multiset_has_no_duplicates();
        assert forall|x: u8| next.to_multiset().contains(x) implies next.to_multiset().count(x)
            == 1 by {
            assert(held.to_multiset().count(x) >= next.to_multiset().count(x));
        }
        next.lemma_multiset_has_no_duplicates_conv();
        lemma_release_all_empties(next, releases.drop_first());
    }
}

/// Round trip: pressing any set of at most six distinct keycodes in any
/// order into an empty buffer, then releasing all of them in any order,
/// returns the held sequence to empty. The modifier mask is untouched by
/// presses and releases of plain keycodes, so the rendered report is back to
/// all-zero keycode slots with the modifier unchanged.
pub proof fn lemma_buffer_round_trip(presses: Seq<u8>, releases: Seq<u8>)
    requires
        presses.no_duplicates(),
        presses.len() <= 6,
        releases.to_multiset() == presses.to_multiset(),
    ensures
        release_all(press_all(Seq::empty(), presses), releases) == Seq::<u8>::empty(),
{
    lemma_buffer_saturation(presses);
    if presses.len() < 6 {
    } else {
        assert(presses.take(6) =~= presses);
    }
    lemma_release_all_empties(presses, releases);
}

/// Accumulates the set of currently-held plain keys and the modifier bitmask,
/// and renders the current USB report.
pub struct KeyBuffer {
    modifier: u8,
    keycodes: [u8; 6],
    cnt: usize,
}

impl View for KeyBuffer {
    type V = KeyBufferView;

    closed spec fn view(&self) -> KeyBufferView {
        KeyBufferView { modifier: self.modifier, held: self.keycodes@.take(self.cnt as int) }
    }
}

impl Default for KeyBuffer {
    /// An empty buffer: no modifier bit set, no key held.
    fn default() -> (buffer: KeyBuffer)
        ensures
            buffer.wf(),
            buffer@.modifier == 0,
            buffer@.held == Seq::<u8>::empty(),
    {
        let buffer = KeyBuffer { modifier: 0, keycodes: [0u8; 6], cnt: 0 };
        proof {
            assert(buffer@.held =~= Seq::<u8>::empty());
        }
        buffer
    }
}

impl KeyBuffer {
    /// At most six keys are held, and the slots past the held ones stay zero,
    /// so a rendered report is zero-padded.
    pub closed spec fn wf(&self) -> bool {
        &&& self.cnt <= 6
        &&& forall|j: int| self.cnt <= j < 6 ==> self.keycodes@[j] == 0
    }

    /// Render the current state as a wire report: the modifier mask and the
    /// held keycodes, zero-padded to the six slots.
    pub fn get_cur_report(&self) -> (report: KeyReport)
        requires
            self.wf(),
        ensures
            report.modifier == self@.modifier,
            report.keycodes@ == pad_report(self@.held),
    {
        let report = KeyReport { modifier: self.modifier, keycodes: self.keycodes };
        proof {
            assert(report.keycodes@ =~= pad_report(self@.held));
        }
        report
    }

    /// OR the modifier bit selected by the low nibble of the usage code into
    /// the modifier mask. The low nibble must be a bit position of the
    /// one-byte mask.
    pub fn set_modifier(&mut self, key_code: u8)
        requires
            old(self).wf(),
            key_code & 0x0f < 8,
        ensures
            final(self).wf(),
            final(self)@.modifier == old(self)@.modifier | (1u8 << (key_code & 0x0f)),
            final(self)@.held == old(self)@.held,
    {
        self.modifier = self.modifier | (1u8 << (key_code & 0x0f));
    }

    /// Clear the modifier bit selected by the low nibble of the usage code.
    pub fn unset_modifier(&mut self, key_code: u8)
        requires
            old(self).wf(),
            key_code & 0x0f < 8,
        ensures
            final(self).wf(),
            final(self)@.modifier == old(self)@.modifier & !(1u8 << (key_code & 0x0f)),
            final(self)@.held == old(self)@.held,
    {
        self.modifier = self.modifier & !(1u8 << (key_code & 0x0f));
    }

    /// Append a pressed keycode to the held sequence; when six keys are
    /// already held the press is dropped, a user-visible rollover limit.
    pub fn presse_key(&mut self, key_code: u8)
        requires
            old(self).wf(),
        ensures
            final(self).wf(),
            final(self)@.modifier == old(self)@.modifier,
            final(self)@.held == buf_press(old(self)@.held, key_code),
    {
        if self.cnt == 6 {
            return ;
        }
        self.keycodes[self.cnt] = key_code;
        self.cnt = self.cnt + 1;
        proof {
            assert(self@.held =~= buf_press(old(self)@.held, key_code));
        }
    }

    /// Remove the first held occurrence of a keycode, left-shifting the later
    /// entries so the sequence stays dense and order-preserving. Releasing a
    /// keycode that is not held leaves the buffer unchanged: that signals
    /// desynchronization and must never fail.
    pub fn release_key(&mut self, key_code: u8)
        requires
            old(self).wf(),
        ensures
            final(self).wf(),
            final(self)@.modifier == old(self)@.modifier,
            final(self)@.held == buf_release(old(self)@.held, key_code),
    {
        proof {
            old(self)@.held.index_of_first_ensures(key_code);
        }
        let ghost held0 = old(self)@.held;
        let mut index: usize = 0;
        while index < self.cnt && self.keycodes[index] != key_code
            invariant
                *self == *old(self),
                old(self).wf(),
                held0 == old(self)@.held,
                index <= self.cnt,
                forall|j: int| 0 <= j < index ==> held0[j] != key_code,
            decreases self.cnt - index,
        {
            index = index + 1;
        }
        if index == self.cnt {
            // Not held: ignore. The held sequence holds no occurrence, so the
            // abstract release is the identity.
            proof {
                assert(!held0.contains(key_code)) by {
                    if held0.contains(key_code) {
                        let w = choose|w: int| 0 <= w < held0.len() && held0[w] == key_code;
                        assert(held0[w] != key_code);
                    }
                }
            }
            return ;
        }
        proof {
            assert(held0[index as int] == key_code);
            assert(held0.contains(key_code));
            match held0.index_of_first(key_code) {
                Some(first) => {
                    if first < index as int {
                        assert(held0[first] != key_code);
                    }
                    if (index as int) < first {
                        assert(held0[index as int] != key_code);
                    }
                    assert(held0.index_of_first(key_code) == Some(index as int));
                },
                None => {
                    assert(false);
                },
            }
        }
        let mut shift: usize = index;
        while shift < self.cnt - 1
            invariant
                old(self).wf(),
                held0 == old(self)@.held,
                held0.len() == self.cnt,
                index < self.cnt <= 6,
                index <= shift < self.cnt,
                self.cnt == old(self).cnt,
                self.modifier == old(self).modifier,
                forall|j: int| 0 <= j < shift ==> self.keycodes@[j] == held0.remove(index as int)[j],
                forall|j: int|
                    shift <= j < 6 ==> self.keycodes@[j] == old(self).keycodes@[j],
            decreases self.cnt - shift,
        {
            self.keycodes[shift] = self.keycodes[shift + 1];
            shift = shift + 1;
        }
        self.keycodes[self.cnt - 1] = 0;
        self.cnt = self.cnt - 1;
        proof {
            assert(self@.held =~= buf_release(held0, key_code));
        }
    }
}

} // verus!
