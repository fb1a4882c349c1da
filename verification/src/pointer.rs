//! Normalized pointer-button model: the closed button enumeration and a
//! fixed-width bitset over it.
//!
//! `PointerButton::NoButton` deliberately owns no bit, so inserting or removing
//! it never changes a set.

use vstd::prelude::*;

verus! {

/// An indicator of which pointer button was pressed.
#[derive(PartialEq, Eq, Clone, Copy, Debug, Structural)]
pub enum PointerButton {
    /// No pointer button.
    NoButton,
    /// Left mouse button, touch contact, pen contact.
    Left,
    /// Right mouse button, pen barrel button.
    Right,
    /// Middle mouse button.
    Middle,
    /// X1 (back) mouse button.
    X1,
    /// X2 (forward) mouse button.
    X2,
    /// Pen eraser button.
    Eraser,
}

impl PointerButton {
    /// The bit this button occupies in a `PointerButtons` set.
    /// `NoButton` owns no bit, so its mask is zero.
    pub open spec fn spec_mask(self) -> u8 {
        match self {
            PointerButton::NoButton => 0,
            PointerButton::Left => 2,
            PointerButton::Right => 4,
            PointerButton::Middle => 8,
            PointerButton::X1 => 16,
            PointerButton::X2 => 32,
            PointerButton::Eraser => 64,
        }
    }

    fn mask(self) -> (r: u8)
        ensures
            r == self.spec_mask(),
    {
        match self {
            PointerButton::NoButton => 0,
            PointerButton::Left => 2,
            PointerButton::Right => 4,
            PointerButton::Middle => 8,
            PointerButton::X1 => 16,
            PointerButton::X2 => 32,
            PointerButton::Eraser => 64,
        }
    }

    /// Returns `true` if this is `PointerButton::Left`.
    pub fn is_left(self) -> (r: bool)
        ensures
            r == (self is Left),
    {
        self == PointerButton::Left
    }

    /// Returns `true` if this is `PointerButton::Right`.
    pub fn is_right(self) -> (r: bool)
        ensures
            r == (self is Right),
    {
        self == PointerButton::Right
    }

    /// Returns `true` if this is `PointerButton::Middle`.
    pub fn is_middle(self) -> (r: bool)
        ensures
            r == (self is Middle),
    {
        self == PointerButton::Middle
    }

    /// Returns `true` if this is `PointerButton::X1`.
    pub fn is_x1(self) -> (r: bool)
        ensures
            r == (self is X1),
    {
        self == PointerButton::X1
    }

    /// Returns `true` if this is `PointerButton::X2`.
    pub fn is_x2(self) -> (r: bool)
        ensures
            r == (self is X2),
    {
        self == PointerButton::X2
    }

    /// Returns `true` if this is `PointerButton::Eraser`.
    pub fn is_eraser(self) -> (r: bool)
        ensures
            r == (self is Eraser),
    {
        self == PointerButton::Eraser
    }
}

/// A set of `PointerButton`s.
#[derive(PartialEq, Eq, Clone, Copy, Debug, Structural)]
pub struct PointerButtons(u8);

impl PointerButtons {
    /// The raw bits backing the set.
    pub closed spec fn bits(&self) -> u8 {
        self.0
    }

    /// Whether `button` is in the set.  `NoButton` owns no bit and is never a
    /// member.
    pub open spec fn spec_contains(&self, button: PointerButton) -> bool {
        self.bits() & button.spec_mask() != 0
    }

    /// Set invariant: only the six button bits are ever set.  `new` and
    /// `default` establish it and every operation preserves it, so the
    /// raw bits carry no information beyond membership.
    pub open spec fn wf(&self) -> bool {
        self.bits() & 129 == 0
    }

    /// How many buttons the set contains: the sum of the six membership
    /// indicators.
    pub open spec fn spec_member_count(self) -> u32 {
        ((if self.spec_contains(PointerButton::Left) {
            1u32
        } else {
            0u32
        }) + (if self.spec_contains(PointerButton::Right) {
            1u32
        } else {
            0u32
        }) + (if self.spec_contains(PointerButton::Middle) {
            1u32
        } else {
            0u32
        }) + (if self.spec_contains(PointerButton::X1) {
            1u32
        } else {
            0u32
        }) + (if self.spec_contains(PointerButton::X2) {
            1u32
        } else {
            0u32
        }) + (if self.spec_contains(PointerButton::Eraser) {
            1u32
        } else {
            0u32
        })) as u32
    }

    /// The set with `button` added (a no-op for `NoButton`).
    pub closed spec fn spec_with(self, button: PointerButton) -> PointerButtons {
        PointerButtons(self.0 | button.spec_mask())
    }

    /// The set with `button` taken out (a no-op for `NoButton`).
    pub closed spec fn spec_without(self, button: PointerButton) -> PointerButtons {
        PointerButtons(self.0 & !button.spec_mask())
    }

    /// Create a new empty set.
    pub fn new() -> (r: PointerButtons)
        ensures
            r.bits() == 0,
            r.wf(),
    {
        proof {
            assert(0u8 & 129 == 0) by (bit_vector);
        }
        PointerButtons(0)
    }

    /// Add the `button` to the set.
    pub fn insert(&mut self, button: PointerButton)
        ensures
            *final(self) == old(self).spec_with(button),
            final(self).bits() == old(self).bits() | button.spec_mask(),
            old(self).wf() ==> final(self).wf(),
    {
        proof {
            lemma_with_preserves_wf(*old(self), button);
        }
        self.0 = self.0 | button.mask();
    }

    /// Remove the `button` from the set.
    pub fn remove(&mut self, button: PointerButton)
        ensures
            *final(self) == old(self).spec_without(button),
            final(self).bits() == old(self).bits() & !button.spec_mask(),
            old(self).wf() ==> final(self).wf(),
    {
        proof {
            lemma_without_preserves_wf(*old(self), button);
        }
        self.0 = self.0 & !button.mask();
    }

    /// Builder-style method for adding the `button` to the set.
    pub fn with(self, button: PointerButton) -> (r: PointerButtons)
        ensures
            r == self.spec_with(button),
            r.bits() == self.bits() | button.spec_mask(),
            self.wf() ==> r.wf(),
    {
        proof {
            lemma_with_preserves_wf(self, button);
        }
        PointerButtons(self.0 | button.mask())
    }

    /// Builder-style method for removing the `button` from the set.
    pub fn without(self, button: PointerButton) -> (r: PointerButtons)
        ensures
            r == self.spec_without(button),
            r.bits() == self.bits() & !button.spec_mask(),
            self.wf() ==> r.wf(),
    {
        proof {
            lemma_without_preserves_wf(self, button);
        }
        PointerButtons(self.0 & !button.mask())
    }

    /// Returns `true` if the `button` is in the set.
    pub fn contains(self, button: PointerButton) -> (r: bool)
        ensures
            r == self.spec_contains(button),
    {
        (self.0 & button.mask()) != 0
    }

    /// Returns `true` if the set is empty: exactly when no button is a
    /// member, equivalently when the member count is zero (the raw bits
    /// say no more, by the set invariant).
    pub fn is_empty(self) -> (r: bool)
        ensures
            r == (self.bits() == 0),
            r ==> forall|b: PointerButton| !self.spec_contains(b),
            self.wf() ==> (r == (forall|b: PointerButton| !self.spec_contains(b))),
            self.wf() ==> (r == (self.spec_member_count() == 0)),
    {
        proof {
            assert forall|b: PointerButton| (0u8 & b.spec_mask()) == 0 by {
                let m = b.spec_mask();
                assert(0u8 & m == 0) by (bit_vector);
            }
            if self.wf() && self.bits() != 0 {
                lemma_some_button_set(self);
            }
        }
        self.0 == 0
    }

    /// Returns `true` if all the `buttons` are in the set: under the set
    /// invariant, exactly when every member of `buttons` is a member of
    /// `self`.
    pub fn is_superset(self, buttons: PointerButtons) -> (r: bool)
        ensures
            r == (self.bits() & buttons.bits() == buttons.bits()),
            r ==> forall|b: PointerButton|
                buttons.spec_contains(b) ==> self.spec_contains(b),
            self.wf() && buttons.wf() ==> (r == (forall|b: PointerButton|
                buttons.spec_contains(b) ==> self.spec_contains(b))),
    {
        proof {
            let s = self.bits();
            let o = buttons.bits();
            assert forall|b: PointerButton|
                s & o == o && (o & b.spec_mask() != 0) implies s & b.spec_mask() != 0 by {
                let m = b.spec_mask();
                assert(s & o == o && (o & m != 0) ==> s & m != 0) by (bit_vector);
            }
            if self.wf() && buttons.wf() && (forall|b: PointerButton|
                buttons.spec_contains(b) ==> self.spec_contains(b)) {
                assert(buttons.spec_contains(PointerButton::Left) ==> self.spec_contains(
                    PointerButton::Left,
                ));
                assert(buttons.spec_contains(PointerButton::Right) ==> self.spec_contains(
                    PointerButton::Right,
                ));
                assert(buttons.spec_contains(PointerButton::Middle) ==> self.spec_contains(
                    PointerButton::Middle,
                ));
                assert(buttons.spec_contains(PointerButton::X1) ==> self.spec_contains(
                    PointerButton::X1,
                ));
                assert(buttons.spec_contains(PointerButton::X2) ==> self.spec_contains(
                    PointerButton::X2,
                ));
                assert(buttons.spec_contains(PointerButton::Eraser) ==> self.spec_contains(
                    PointerButton::Eraser,
                ));
                assert(s & o == o) by (bit_vector)
                    requires
                        o & 129 == 0,
                        o & 2 != 0 ==> s & 2 != 0,
                        o & 4 != 0 ==> s & 4 != 0,
                        o & 8 != 0 ==> s & 8 != 0,
                        o & 16 != 0 ==> s & 16 != 0,
                        o & 32 != 0 ==> s & 32 != 0,
                        o & 64 != 0 ==> s & 64 != 0,
                ;
            }
        }
        (self.0 & buttons.0) == buttons.0
    }

    /// Returns `true` if `PointerButton::Left` is in the set.
    pub fn has_left(self) -> (r: bool)
        ensures
            r == self.spec_contains(PointerButton::Left),
    {
        self.contains(PointerButton::Left)
    }

    /// Returns `true` if `PointerButton::Right` is in the set.
    pub fn has_right(self) -> (r: bool)
        ensures
            r == self.spec_contains(PointerButton::Right),
    {
        self.contains(PointerButton::Right)
    }

    /// Returns `true` if `PointerButton::Middle` is in the set.
    pub fn has_middle(self) -> (r: bool)
        ensures
            r == self.spec_contains(PointerButton::Middle),
    {
        self.contains(PointerButton::Middle)
    }

    /// Returns `true` if `PointerButton::X1` is in the set.
    pub fn has_x1(self) -> (r: bool)
        ensures
            r == self.spec_contains(PointerButton::X1),
    {
        self.contains(PointerButton::X1)
    }

    /// Returns `true` if `PointerButton::X2` is in the set.
    pub fn has_x2(self) -> (r: bool)
        ensures
            r == self.spec_contains(PointerButton::X2),
    {
        self.contains(PointerButton::X2)
    }

    /// Returns `true` if `PointerButton::Eraser` is in the set.
    pub fn has_eraser(self) -> (r: bool)
        ensures
            r == self.spec_contains(PointerButton::Eraser),
    {
        self.contains(PointerButton::Eraser)
    }

    /// Adds all the `buttons` to the set.
    pub fn extend(&mut self, buttons: PointerButtons)
        ensures
            final(self).bits() == old(self).bits() | buttons.bits(),
            forall|b: PointerButton|
                final(self).spec_contains(b) == (old(self).spec_contains(b)
                    || buttons.spec_contains(b)),
            old(self).wf() && buttons.wf() ==> final(self).wf(),
    {
        proof {
            lemma_union_bits(old(self).bits(), buttons.bits());
        }
        self.0 = self.0 | buttons.0;
    }

    /// Returns a union of the values in `self` and `other`.
    pub fn union(self, other: PointerButtons) -> (r: PointerButtons)
        ensures
            r.bits() == self.bits() | other.bits(),
            forall|b: PointerButton|
                r.spec_contains(b) == (self.spec_contains(b) || other.spec_contains(b)),
            self.wf() && other.wf() ==> r.wf(),
    {
        proof {
            lemma_union_bits(self.bits(), other.bits());
        }
        PointerButtons(self.0 | other.0)
    }

    /// Clear the set.
    pub fn clear(&mut self)
        ensures
            final(self).bits() == 0,
            final(self).wf(),
    {
        proof {
            assert(0u8 & 129 == 0) by (bit_vector);
        }
        self.0 = 0;
    }

    /// The number of set bits, as a spec-level sum over the eight positions.
    pub closed spec fn spec_count(self) -> u32 {
        let b = self.0;
        ((b & 1) as u32 + ((b >> 1) & 1) as u32 + ((b >> 2) & 1) as u32 + ((b >> 3) & 1) as u32
            + ((b >> 4) & 1) as u32 + ((b >> 5) & 1) as u32 + ((b >> 6) & 1) as u32 + ((b >> 7)
            & 1) as u32) as u32
    }

    /// Count the number of pressed buttons in the set: under the set
    /// invariant, exactly the number of buttons `contains` holds of.
    pub fn count(self) -> (r: u32)
        ensures
            r == self.spec_count(),
            self.wf() ==> r == self.spec_member_count(),
    {
        proof {
            if self.wf() {
                lemma_count_is_member_count(self);
            }
        }
        let b = self.0;
        proof {
            assert((b & 1) <= 1 && ((b >> 1) & 1) <= 1 && ((b >> 2) & 1) <= 1 && ((b >> 3) & 1)
                <= 1 && ((b >> 4) & 1) <= 1 && ((b >> 5) & 1) <= 1 && ((b >> 6) & 1) <= 1 && ((b
                >> 7) & 1) <= 1) by (bit_vector);
        }
        (b & 1) as u32 + ((b >> 1) & 1) as u32 + ((b >> 2) & 1) as u32 + ((b >> 3) & 1) as u32 + ((
        b >> 4) & 1) as u32 + ((b >> 5) & 1) as u32 + ((b >> 6) & 1) as u32 + ((b >> 7) & 1) as u32
    }
}

impl Default for PointerButtons {
    /// The empty set.
    fn default() -> (r: PointerButtons)
        ensures
            r.bits() == 0,
            r.wf(),
    {
        proof {
            assert(0u8 & 129 == 0) by (bit_vector);
        }
        PointerButtons(0)
    }
}

/// Every button's mask lies within the six button bits.
proof fn lemma_mask_in_band(b: PointerButton)
    ensures
        b.spec_mask() & 129 == 0,
{
    let m = b.spec_mask();
    assert(m & 129 == 0) by (bit_vector)
        requires
            m == 0 || m == 2 || m == 4 || m == 8 || m == 16 || m == 32 || m == 64,
    ;
}

/// Adding a button keeps the set invariant.
proof fn lemma_with_preserves_wf(s: PointerButtons, b: PointerButton)
    ensures
        s.wf() ==> s.spec_with(b).wf(),
{
    lemma_mask_in_band(b);
    let bits = s.bits();
    let m = b.spec_mask();
    if s.wf() {
        assert((bits | m) & 129 == 0) by (bit_vector)
            requires
                bits & 129 == 0,
                m & 129 == 0,
        ;
    }
}

/// Removing a button keeps the set invariant.
proof fn lemma_without_preserves_wf(s: PointerButtons, b: PointerButton)
    ensures
        s.wf() ==> s.spec_without(b).wf(),
{
    let bits = s.bits();
    let m = b.spec_mask();
    if s.wf() {
        assert((bits & !m) & 129 == 0) by (bit_vector)
            requires
                bits & 129 == 0,
        ;
    }
}

/// A bitwise union is the pointwise union of memberships, and stays
/// within the six button bits when both sides do.
proof fn lemma_union_bits(a: u8, o: u8)
    ensures
        a & 129 == 0 && o & 129 == 0 ==> (a | o) & 129 == 0,
        forall|b: PointerButton|
            (((a | o) & (#[trigger] b.spec_mask()) != 0) == (a & b.spec_mask() != 0 || o
                & b.spec_mask() != 0)),
{
    if a & 129 == 0 && o & 129 == 0 {
        assert((a | o) & 129 == 0) by (bit_vector)
            requires
                a & 129 == 0,
                o & 129 == 0,
        ;
    }
    assert forall|b: PointerButton|
        (((a | o) & (#[trigger] b.spec_mask()) != 0) == (a & b.spec_mask() != 0 || o
            & b.spec_mask() != 0)) by {
        let m = b.spec_mask();
        assert(((a | o) & m != 0) == (a & m != 0 || o & m != 0)) by (bit_vector);
    }
}

/// A well-formed set with any bit set contains some button.
proof fn lemma_some_button_set(s: PointerButtons)
    requires
        s.wf(),
        s.bits() != 0,
    ensures
        exists|b: PointerButton| s.spec_contains(b),
        s.spec_member_count() > 0,
{
    let bits = s.bits();
    assert(bits & 2 != 0 || bits & 4 != 0 || bits & 8 != 0 || bits & 16 != 0 || bits & 32 != 0
        || bits & 64 != 0) by (bit_vector)
        requires
            bits & 129 == 0,
            bits != 0,
    ;
    if bits & 2 != 0 {
        assert(s.spec_contains(PointerButton::Left));
    } else if bits & 4 != 0 {
        assert(s.spec_contains(PointerButton::Right));
    } else if bits & 8 != 0 {
        assert(s.spec_contains(PointerButton::Middle));
    } else if bits & 16 != 0 {
        assert(s.spec_contains(PointerButton::X1));
    } else if bits & 32 != 0 {
        assert(s.spec_contains(PointerButton::X2));
    } else {
        assert(s.spec_contains(PointerButton::Eraser));
    }
}

/// Under the set invariant, the bit count equals the member count.
proof fn lemma_count_is_member_count(s: PointerButtons)
    requires
        s.wf(),
    ensures
        s.spec_count() == s.spec_member_count(),
{
    let b = s.bits();
    assert((b & 1) == 0 && ((b >> 7) & 1) == 0) by (bit_vector)
        requires
            b & 129 == 0,
    ;
    assert(((((b >> 1) & 1) == 1) == (b & 2 != 0)) && ((b >> 1) & 1) <= 1) by (bit_vector);
    assert(((((b >> 2) & 1) == 1) == (b & 4 != 0)) && ((b >> 2) & 1) <= 1) by (bit_vector);
    assert(((((b >> 3) & 1) == 1) == (b & 8 != 0)) && ((b >> 3) & 1) <= 1) by (bit_vector);
    assert(((((b >> 4) & 1) == 1) == (b & 16 != 0)) && ((b >> 4) & 1) <= 1) by (bit_vector);
    assert(((((b >> 5) & 1) == 1) == (b & 32 != 0)) && ((b >> 5) & 1) <= 1) by (bit_vector);
    assert(((((b >> 6) & 1) == 1) == (b & 64 != 0)) && ((b >> 6) & 1) <= 1) by (bit_vector);
}

/// Counting laws: the member count never exceeds six; adding a fresh real
/// button raises it by exactly one, adding one already present leaves it
/// unchanged, and adding `NoButton` changes nothing at all.
pub proof fn lemma_button_count_insert(s: PointerButtons, b: PointerButton)
    ensures
        s.spec_member_count() <= 6,
        !(b is NoButton) && !s.spec_contains(b) ==> s.spec_with(b).spec_member_count()
            == s.spec_member_count() + 1,
        s.spec_contains(b) ==> s.spec_with(b).spec_member_count() == s.spec_member_count(),
        b is NoButton ==> s.spec_with(b) == s,
{
    lemma_button_set_pointwise(s, b, PointerButton::Left);
    lemma_button_set_pointwise(s, b, PointerButton::Right);
    lemma_button_set_pointwise(s, b, PointerButton::Middle);
    lemma_button_set_pointwise(s, b, PointerButton::X1);
    lemma_button_set_pointwise(s, b, PointerButton::X2);
    lemma_button_set_pointwise(s, b, PointerButton::Eraser);
    lemma_none_button_no_op(s);
    match b {
        PointerButton::NoButton => {},
        PointerButton::Left => {},
        PointerButton::Right => {},
        PointerButton::Middle => {},
        PointerButton::X1 => {},
        PointerButton::X2 => {},
        PointerButton::Eraser => {},
    }
}

/// How the masks of two buttons relate: a button's mask meets another
/// button's mask only when they are the same button, and only `NoButton` has
/// the zero mask.
proof fn lemma_mask_pair(a: PointerButton, b: PointerButton)
    ensures
        a == b ==> a.spec_mask() & b.spec_mask() == a.spec_mask(),
        a != b ==> a.spec_mask() & b.spec_mask() == 0,
        (a is NoButton) <==> a.spec_mask() == 0,
{
    let ma = a.spec_mask();
    let mb = b.spec_mask();
    assert(ma & ma == ma) by (bit_vector);
    if a != b {
        assert(ma & mb == 0) by (bit_vector)
            requires
                (ma == 0 || ma == 2 || ma == 4 || ma == 8 || ma == 16 || ma == 32 || ma == 64),
                (mb == 0 || mb == 2 || mb == 4 || mb == 8 || mb == 16 || mb == 32 || mb == 64),
                ma != mb || ma == 0,
        ;
    }
}

/// Round-trip law for the button set: for every button other than `NoButton`,
/// adding it makes `contains` true, and removing it afterwards makes
/// `contains` false again.
pub proof fn lemma_button_set_round_trip(s: PointerButtons, b: PointerButton)
    requires
        !(b is NoButton),
    ensures
        s.spec_with(b).spec_contains(b),
        !s.spec_with(b).spec_without(b).spec_contains(b),
{
    let bits = s.bits();
    let m = b.spec_mask();
    lemma_mask_pair(b, b);
    assert((bits | m) & m != 0) by (bit_vector)
        requires
            m != 0,
    ;
    assert(((bits | m) & !m) & m == 0) by (bit_vector);
}

/// Pointwise effect of the builder operations: `with(b)` makes exactly
/// `b` a member (unless `b` is `NoButton`, which is never a member) and
/// leaves every other button's membership unchanged; `without(b)` removes
/// exactly `b` and leaves every other button's membership unchanged.
pub proof fn lemma_button_set_pointwise(s: PointerButtons, b: PointerButton, x: PointerButton)
    ensures
        x != b ==> s.spec_with(b).spec_contains(x) == s.spec_contains(x),
        x != b ==> s.spec_without(b).spec_contains(x) == s.spec_contains(x),
        !(b is NoButton) ==> s.spec_with(b).spec_contains(b),
        !s.spec_without(b).spec_contains(b),
{
    let bits = s.bits();
    let mb = b.spec_mask();
    let mx = x.spec_mask();
    lemma_mask_pair(b, x);
    lemma_mask_pair(b, b);
    if x != b {
        assert(((bits | mb) & mx != 0) == (bits & mx != 0)) by (bit_vector)
            requires
                mb & mx == 0,
        ;
        assert(((bits & !mb) & mx != 0) == (bits & mx != 0)) by (bit_vector)
            requires
                mb & mx == 0,
        ;
    }
    if !(b is NoButton) {
        assert((bits | mb) & mb != 0) by (bit_vector)
            requires
                mb != 0,
        ;
    }
    assert((bits & !mb) & mb == 0) by (bit_vector);
}

/// `NoButton` owns no bit: it is never a member, and adding or removing it
/// leaves any set unchanged, so in particular emptiness never changes.
pub proof fn lemma_none_button_no_op(s: PointerButtons)
    ensures
        !s.spec_contains(PointerButton::NoButton),
        s.spec_with(PointerButton::NoButton) == s,
        s.spec_without(PointerButton::NoButton) == s,
{
    let bits = s.bits();
    assert(bits & 0 == 0) by (bit_vector);
    assert(bits | 0 == bits) by (bit_vector);
    assert(bits & !0u8 == bits) by (bit_vector);
}

} // verus!
