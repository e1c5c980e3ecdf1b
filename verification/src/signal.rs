//! Cross-platform [`Signal`] enum and bit-packed [`SignalSet`].

use vstd::prelude::*;

verus! {

/// A platform-neutral signal identifier.
///
/// Variants map to their nearest platform equivalent. On Unix the
/// mapping is direct (SIGTERM, SIGINT, etc.). On Windows the mapping
/// is to Windows console control events:
///
/// | Variant      | Unix     | Windows             |
/// | ------------ | -------- | ------------------- |
/// | `Terminate`  | SIGTERM  | `CTRL_CLOSE_EVENT`  |
/// | `Interrupt`  | SIGINT   | `CTRL_C_EVENT`      |
/// | `Quit`       | SIGQUIT  | `CTRL_BREAK_EVENT`  |
/// | `Hangup`     | SIGHUP   | `CTRL_SHUTDOWN_EVENT` |
/// | `Pipe`       | SIGPIPE  | inert               |
/// | `User1`      | SIGUSR1  | inert               |
/// | `User2`      | SIGUSR2  | inert               |
#[derive(Debug, Clone, Copy, PartialEq, Eq, Hash, Structural)]
#[non_exhaustive]
pub enum Signal {
    /// SIGTERM on Unix, `CTRL_CLOSE_EVENT` on Windows.
    Terminate,
    /// SIGINT (Ctrl+C) on Unix, `CTRL_C_EVENT` on Windows.
    Interrupt,
    /// SIGQUIT on Unix, `CTRL_BREAK_EVENT` on Windows.
    Quit,
    /// SIGHUP on Unix, `CTRL_SHUTDOWN_EVENT` on Windows.
    Hangup,
    /// SIGPIPE (Unix only; inert on Windows).
    Pipe,
    /// SIGUSR1 (Unix only; inert on Windows).
    User1,
    /// SIGUSR2 (Unix only; inert on Windows).
    User2,
}

/// The signal at position `i` of the canonical order
/// (`Terminate, Interrupt, Quit, Hangup, Pipe, User1, User2`).
pub open spec fn signal_at(i: int) -> Signal {
    if i == 0 {
        Signal::Terminate
    } else if i == 1 {
        Signal::Interrupt
    } else if i == 2 {
        Signal::Quit
    } else if i == 3 {
        Signal::Hangup
    } else if i == 4 {
        Signal::Pipe
    } else if i == 5 {
        Signal::User1
    } else {
        Signal::User2
    }
}

/// The canonical order of all variants, as a sequence.
pub open spec fn canonical_order() -> Seq<Signal> {
    seq![
        Signal::Terminate,
        Signal::Interrupt,
        Signal::Quit,
        Signal::Hangup,
        Signal::Pipe,
        Signal::User1,
        Signal::User2,
    ]
}

impl Signal {
    /// All defined variants, in canonical order.
    pub const ALL: [Signal; 7] = [
        Signal::Terminate,
        Signal::Interrupt,
        Signal::Quit,
        Signal::Hangup,
        Signal::Pipe,
        Signal::User1,
        Signal::User2,
    ];

    /// Position of the variant in the canonical order.
    pub open spec fn position(self) -> u16 {
        match self {
            Signal::Terminate => 0,
            Signal::Interrupt => 1,
            Signal::Quit => 2,
            Signal::Hangup => 3,
            Signal::Pipe => 4,
            Signal::User1 => 5,
            Signal::User2 => 6,
        }
    }

    /// The single bit that stands for the variant in a [`SignalSet`].
    pub open spec fn mask(self) -> u16 {
        1u16 << self.position()
    }

    /// The human-readable description of the variant.
    pub open spec fn description_text(self) -> Seq<char> {
        match self {
            Signal::Terminate => "Terminate (SIGTERM / CTRL_CLOSE_EVENT)"@,
            Signal::Interrupt => "Interrupt (SIGINT / CTRL_C_EVENT)"@,
            Signal::Quit => "Quit (SIGQUIT / CTRL_BREAK_EVENT)"@,
            Signal::Hangup => "Hangup (SIGHUP / CTRL_SHUTDOWN_EVENT)"@,
            Signal::Pipe => "Pipe (SIGPIPE, Unix only)"@,
            Signal::User1 => "User1 (SIGUSR1, Unix only)"@,
            Signal::User2 => "User2 (SIGUSR2, Unix only)"@,
        }
    }

    /// The Unix signal number of the variant.
    pub open spec fn unix_code(self) -> i32 {
        match self {
            Signal::Hangup => 1,
            Signal::Interrupt => 2,
            Signal::Quit => 3,
            Signal::User1 => 10,
            Signal::User2 => 12,
            Signal::Pipe => 13,
            Signal::Terminate => 15,
        }
    }

    /// `true` for the variants that have no Windows analog.
    pub open spec fn unix_only(self) -> bool {
        match self {
            Signal::Pipe | Signal::User1 | Signal::User2 => true,
            _ => false,
        }
    }

    /// Whether a handler for the variant can be installed on a
    /// platform that is (`unix == true`) or is not a Unix.
    pub open spec fn available_on_spec(self, unix: bool) -> bool {
        unix || !self.unix_only()
    }

    /// Human-readable description used by `to_string` and logging.
    pub fn description(self) -> (r: &'static str)
        ensures
            r@ == self.description_text(),
    {
        match self {
            Signal::Terminate => "Terminate (SIGTERM / CTRL_CLOSE_EVENT)",
            Signal::Interrupt => "Interrupt (SIGINT / CTRL_C_EVENT)",
            Signal::Quit => "Quit (SIGQUIT / CTRL_BREAK_EVENT)",
            Signal::Hangup => "Hangup (SIGHUP / CTRL_SHUTDOWN_EVENT)",
            Signal::Pipe => "Pipe (SIGPIPE, Unix only)",
            Signal::User1 => "User1 (SIGUSR1, Unix only)",
            Signal::User2 => "User2 (SIGUSR2, Unix only)",
        }
    }

    /// The description as an owned `String`; this is what the
    /// variant's textual rendering is.
    pub fn to_string(&self) -> (r: String)
        ensures
            r@ == self.description_text(),
    {
        String::from_str(self.description())
    }

    /// Unix signal number for this variant. Every variant currently
    /// has one; the `Option` leaves room for Windows-only variants.
    pub fn unix_number(self) -> (r: Option<i32>)
        ensures
            r == Some(self.unix_code()),
    {
        match self {
            Signal::Hangup => Some(1),
            Signal::Interrupt => Some(2),
            Signal::Quit => Some(3),
            Signal::User1 => Some(10),
            Signal::User2 => Some(12),
            Signal::Pipe => Some(13),
            Signal::Terminate => Some(15),
        }
    }

    /// Returns `true` for variants that have no Windows analog.
    pub fn is_unix_only(self) -> (r: bool)
        ensures
            r == self.unix_only(),
    {
        match self {
            Signal::Pipe | Signal::User1 | Signal::User2 => true,
            _ => false,
        }
    }

    /// Returns `true` if installing a handler for this signal is
    /// expected to succeed on a platform that is (`unix`) or is not a
    /// Unix.
    pub fn available_on(self, unix: bool) -> (r: bool)
        ensures
            r == self.available_on_spec(unix),
    {
        unix || !self.is_unix_only()
    }

    /// Returns `true` if installing a handler for this signal is
    /// expected to succeed on the platform this binary is running on.
    ///
    /// Variants with a Windows analog are available everywhere; the
    /// Unix-only ones are available exactly when the platform's path
    /// syntax is not the Windows one.
    pub fn available_on_current_platform(self) -> (r: bool)
        ensures
            !self.unix_only() ==> r,
    {
        let windows_like = crate::platform::backslash_is_path_separator();
        self.available_on(!windows_like)
    }

    /// The single bit that stands for the variant in a [`SignalSet`].
    pub(crate) fn bit(self) -> (r: u16)
        ensures
            r == self.mask(),
    {
        match self {
            Signal::Terminate => 1u16 << 0u16,
            Signal::Interrupt => 1u16 << 1u16,
            Signal::Quit => 1u16 << 2u16,
            Signal::Hangup => 1u16 << 3u16,
            Signal::Pipe => 1u16 << 4u16,
            Signal::User1 => 1u16 << 5u16,
            Signal::User2 => 1u16 << 6u16,
        }
    }

    /// The variant at position `i` of the canonical order.
    pub(crate) fn from_position(i: usize) -> (s: Signal)
        requires
            i < 7,
        ensures
            s == signal_at(i as int),
            s.position() == i,
    {
        if i == 0 {
            Signal::Terminate
        } else if i == 1 {
            Signal::Interrupt
        } else if i == 2 {
            Signal::Quit
        } else if i == 3 {
            Signal::Hangup
        } else if i == 4 {
            Signal::Pipe
        } else if i == 5 {
            Signal::User1
        } else {
            Signal::User2
        }
    }
}

/// Each variant sits at its own position, and the canonical order
/// lists every variant exactly once.
pub proof fn lemma_positions()
    ensures
        forall|s: Signal| #[trigger] signal_at(s.position() as int) == s,
        forall|s: Signal| #[trigger] s.position() < 7,
        forall|i: int| 0 <= i < 7 ==> (#[trigger] signal_at(i)).position() == i,
        forall|i: int| 0 <= i < 7 ==> canonical_order()[i] == #[trigger] signal_at(i),
        canonical_order().len() == 7,
{
    assert forall|s: Signal| #[trigger] signal_at(s.position() as int) == s by {
        match s {
            Signal::Terminate => {},
            Signal::Interrupt => {},
            Signal::Quit => {},
            Signal::Hangup => {},
            Signal::Pipe => {},
            Signal::User1 => {},
            Signal::User2 => {},
        }
    }
}

/// Distinct variants have distinct Unix signal numbers, and every
/// variant has one.
pub proof fn law_unix_numbers_unique(a: Signal, b: Signal)
    ensures
        a != b ==> a.unix_code() != b.unix_code(),
        a.unix_code() > 0,
{
}

/// A variant is Unix-only exactly when it is `Pipe`, `User1` or
/// `User2`; on a Unix every variant is available, elsewhere exactly
/// the ones that are not Unix-only.
pub proof fn law_platform_availability(s: Signal)
    ensures
        s.unix_only() <==> (s == Signal::Pipe || s == Signal::User1 || s == Signal::User2),
        s.available_on_spec(true),
        s.available_on_spec(false) == !s.unix_only(),
{
}

/// A bit-packed set of [`Signal`] values.
///
/// `SignalSet` is `Copy`. The recommended constructors are
/// [`SignalSet::graceful`] (the default for long-running services) and
/// [`SignalSet::standard`].
#[derive(Debug, Clone, Copy, PartialEq, Eq, Structural)]
pub struct SignalSet {
    bits: u16,
}

impl View for SignalSet {
    type V = Set<Signal>;

    /// The signals enabled in the set.
    open spec fn view(&self) -> Set<Signal> {
        Set::new(|s: Signal| self.has(s))
    }
}

impl SignalSet {
    /// Only bits of defined variants are ever set.
    #[verifier::type_invariant]
    pub closed spec fn valid(self) -> bool {
        self.bits <= 0x7f
    }

    /// Whether `sig`'s bit is set.
    pub closed spec fn has(self, sig: Signal) -> bool {
        self.bits & sig.mask() != 0
    }

    /// The set with no bit set.
    pub closed spec fn none() -> SignalSet {
        SignalSet { bits: 0 }
    }

    /// The set with the bit of every defined variant set.
    pub closed spec fn every() -> SignalSet {
        SignalSet { bits: 0x7f }
    }

    /// `self` with `sig`'s bit set.
    pub closed spec fn plus(self, sig: Signal) -> SignalSet {
        SignalSet { bits: self.bits | sig.mask() }
    }

    /// `self` with `sig`'s bit cleared.
    pub closed spec fn minus(self, sig: Signal) -> SignalSet {
        SignalSet { bits: self.bits & !sig.mask() }
    }

    /// `Terminate | Interrupt | Hangup`.
    pub open spec fn graceful_set() -> SignalSet {
        SignalSet::none().plus(Signal::Terminate).plus(Signal::Interrupt).plus(Signal::Hangup)
    }

    /// The enabled signals from position `i` on, in canonical order.
    pub closed spec fn listed_from(self, i: nat) -> Seq<Signal>
        decreases 7 - i,
    {
        if i >= 7 {
            seq![]
        } else {
            let rest = self.listed_from(i + 1);
            if self.has(signal_at(i as int)) {
                seq![signal_at(i as int)] + rest
            } else {
                rest
            }
        }
    }

    /// The enabled signals in canonical order: what iteration yields.
    pub open spec fn members(self) -> Seq<Signal> {
        self.listed_from(0)
    }

    /// Empty set.
    pub fn empty() -> (r: Self)
        ensures
            r == SignalSet::none(),
            r@ == Set::<Signal>::empty(),
    {
        proof {
            lemma_none_view();
        }
        SignalSet { bits: 0 }
    }

    /// All defined variants enabled. Inert variants on the current
    /// platform are still represented but ignored by `install`.
    pub fn all() -> (r: Self)
        ensures
            r == SignalSet::every(),
            r@ == Set::<Signal>::full(),
    {
        proof {
            lemma_every_view();
        }
        SignalSet { bits: 0x7f }
    }

    /// The recommended default: `Terminate | Interrupt | Hangup`.
    pub fn graceful() -> (r: Self)
        ensures
            r == SignalSet::graceful_set(),
            r@ == set![Signal::Terminate, Signal::Interrupt, Signal::Hangup],
    {
        let r = Self::empty().with(Signal::Terminate).with(Signal::Interrupt).with(Signal::Hangup);
        assert(r@ =~= set![Signal::Terminate, Signal::Interrupt, Signal::Hangup]);
        r
    }

    /// Maximum graceful coverage: `Terminate | Interrupt | Quit | Hangup`.
    pub fn standard() -> (r: Self)
        ensures
            r == SignalSet::graceful_set().plus(Signal::Quit),
            r@ == set![Signal::Terminate, Signal::Interrupt, Signal::Quit, Signal::Hangup],
    {
        let r = Self::graceful().with(Signal::Quit);
        assert(r@ =~= set![Signal::Terminate, Signal::Interrupt, Signal::Quit, Signal::Hangup]);
        r
    }

    /// Return a copy of `self` with `sig` enabled.
    pub fn with(self, sig: Signal) -> (r: Self)
        ensures
            r == self.plus(sig),
            r@ == self@.insert(sig),
    {
        proof {
            use_type_invariant(&self);
            lemma_plus_view(self, sig);
            lemma_mask_ops(self.bits, sig.position(), 0);
        }
        SignalSet { bits: self.bits | sig.bit() }
    }

    /// Return a copy of `self` with `sig` disabled.
    pub fn without(self, sig: Signal) -> (r: Self)
        ensures
            r == self.minus(sig),
            r@ == self@.remove(sig),
    {
        proof {
            use_type_invariant(&self);
            lemma_minus_view(self, sig);
            lemma_mask_ops(self.bits, sig.position(), 0);
        }
        SignalSet { bits: self.bits & !sig.bit() }
    }

    /// Check whether `sig` is enabled.
    pub fn contains(self, sig: Signal) -> (r: bool)
        ensures
            r == self@.contains(sig),
    {
        (self.bits & sig.bit()) != 0
    }

    /// `true` if the set has no signals enabled.
    pub fn is_empty(self) -> (r: bool)
        ensures
            r == (self@ == Set::<Signal>::empty()),
            r == (self == SignalSet::none()),
    {
        proof {
            use_type_invariant(&self);
            lemma_empty_bits(self.bits);
            if self.bits != 0 {
                if self.has(Signal::Terminate) {
                    assert(self@.contains(Signal::Terminate));
                } else if self.has(Signal::Interrupt) {
                    assert(self@.contains(Signal::Interrupt));
                } else if self.has(Signal::Quit) {
                    assert(self@.contains(Signal::Quit));
                } else if self.has(Signal::Hangup) {
                    assert(self@.contains(Signal::Hangup));
                } else if self.has(Signal::Pipe) {
                    assert(self@.contains(Signal::Pipe));
                } else if self.has(Signal::User1) {
                    assert(self@.contains(Signal::User1));
                } else {
                    assert(self@.contains(Signal::User2));
                }
            } else {
                assert(self@ =~= Set::<Signal>::empty());
            }
        }
        self.bits == 0
    }

    /// Number of signals enabled in the set.
    pub fn len(self) -> (r: usize)
        ensures
            r == self@.len(),
            r == self.members().len(),
    {
        let mut count: usize = 0;
        let mut i: usize = 0;
        while i < 7
            invariant
                i <= 7,
                count <= i,
                count + self.listed_from(i as nat).len() == self.listed_from(0).len(),
            decreases 7 - i,
        {
            let sig = Signal::from_position(i);
            if self.contains(sig) {
                count = count + 1;
            }
            i = i + 1;
        }
        proof {
            lemma_members(self);
        }
        count
    }

    /// Iterate the enabled signals in canonical [`Signal::ALL`] order.
    pub fn iter(&self) -> (it: SignalSetIter)
        ensures
            it.remaining() == self.members(),
    {
        SignalSetIter { set: *self, index: 0 }
    }
}

impl Default for SignalSet {
    /// The default set is [`SignalSet::graceful`].
    fn default() -> (r: Self)
        ensures
            r == SignalSet::graceful_set(),
    {
        Self::graceful()
    }
}

/// Iterator over the signals enabled in a [`SignalSet`].
#[derive(Debug, Clone)]
pub struct SignalSetIter {
    set: SignalSet,
    index: usize,
}

impl SignalSetIter {
    /// The signals this iterator has still to yield, in order.
    pub closed spec fn remaining(self) -> Seq<Signal> {
        self.set.listed_from(self.index as nat)
    }

    /// Yield the next enabled signal, or `None` once every enabled
    /// signal has been yielded.
    pub fn next(&mut self) -> (r: Option<Signal>)
        ensures
            old(self).remaining().len() == 0 ==> r is None && final(self).remaining().len() == 0,
            old(self).remaining().len() > 0 ==> r == Some(old(self).remaining()[0])
                && final(self).remaining() == old(self).remaining().drop_first(),
    {
        while self.index < 7
            invariant
                self.set.listed_from(self.index as nat) == old(self).remaining(),
            decreases 7 - self.index,
        {
            let sig = Signal::from_position(self.index);
            self.index = self.index + 1;
            if self.set.contains(sig) {
                return Some(sig);
            }
        }
        None
    }
}

proof fn lemma_mask_ops(b: u16, i: u16, j: u16)
    by (bit_vector)
    requires
        i < 7,
        j < 7,
    ensures
        b <= 0x7f ==> (b | (1u16 << i)) <= 0x7f,
        b <= 0x7f ==> (b & !(1u16 << i)) <= 0x7f,
        ((b | (1u16 << i)) & (1u16 << j) != 0) == (i == j || b & (1u16 << j) != 0),
        ((b & !(1u16 << i)) & (1u16 << j) != 0) == (i != j && b & (1u16 << j) != 0),
{
}

proof fn lemma_empty_bits(b: u16)
    by (bit_vector)
    requires
        b <= 0x7f,
    ensures
        b != 0 ==> (b & (1u16 << 0u16) != 0 || b & (1u16 << 1u16) != 0 || b & (1u16 << 2u16) != 0
            || b & (1u16 << 3u16) != 0 || b & (1u16 << 4u16) != 0 || b & (1u16 << 5u16) != 0 || b
            & (1u16 << 6u16) != 0),
        b == 0 ==> (b & (1u16 << 0u16) == 0 && b & (1u16 << 1u16) == 0 && b & (1u16 << 2u16) == 0
            && b & (1u16 << 3u16) == 0 && b & (1u16 << 4u16) == 0 && b & (1u16 << 5u16) == 0 && b
            & (1u16 << 6u16) == 0),
{
}

proof fn lemma_bits_ext(a: u16, b: u16)
    by (bit_vector)
    requires
        a <= 0x7f,
        b <= 0x7f,
        (a & (1u16 << 0u16) != 0) == (b & (1u16 << 0u16) != 0),
        (a & (1u16 << 1u16) != 0) == (b & (1u16 << 1u16) != 0),
        (a & (1u16 << 2u16) != 0) == (b & (1u16 << 2u16) != 0),
        (a & (1u16 << 3u16) != 0) == (b & (1u16 << 3u16) != 0),
        (a & (1u16 << 4u16) != 0) == (b & (1u16 << 4u16) != 0),
        (a & (1u16 << 5u16) != 0) == (b & (1u16 << 5u16) != 0),
        (a & (1u16 << 6u16) != 0) == (b & (1u16 << 6u16) != 0),
    ensures
        a == b,
{
}

proof fn lemma_full_bits()
    by (bit_vector)
    ensures
        0x7fu16 & (1u16 << 0u16) != 0,
        0x7fu16 & (1u16 << 1u16) != 0,
        0x7fu16 & (1u16 << 2u16) != 0,
        0x7fu16 & (1u16 << 3u16) != 0,
        0x7fu16 & (1u16 << 4u16) != 0,
        0x7fu16 & (1u16 << 5u16) != 0,
        0x7fu16 & (1u16 << 6u16) != 0,
        0u16 & (1u16 << 0u16) == 0,
        0u16 & (1u16 << 1u16) == 0,
        0u16 & (1u16 << 2u16) == 0,
        0u16 & (1u16 << 3u16) == 0,
        0u16 & (1u16 << 4u16) == 0,
        0u16 & (1u16 << 5u16) == 0,
        0u16 & (1u16 << 6u16) == 0,
{
}

proof fn lemma_none_view()
    ensures
        SignalSet::none()@ == Set::<Signal>::empty(),
{
    lemma_full_bits();
    assert(SignalSet::none()@ =~= Set::<Signal>::empty());
}

proof fn lemma_every_view()
    ensures
        SignalSet::every()@ == Set::<Signal>::full(),
{
    lemma_full_bits();
    assert(SignalSet::every()@ =~= Set::<Signal>::full());
}

proof fn lemma_plus_view(set: SignalSet, sig: Signal)
    ensures
        set.plus(sig)@ == set@.insert(sig),
{
    lemma_positions();
    assert forall|s: Signal| #[trigger] set.plus(sig).has(s) == (set.has(s) || s == sig) by {
        lemma_mask_ops(set.bits, sig.position(), s.position());
        if s.position() == sig.position() {
            assert(signal_at(s.position() as int) == signal_at(sig.position() as int));
        }
    }
    assert(set.plus(sig)@ =~= set@.insert(sig));
}

proof fn lemma_minus_view(set: SignalSet, sig: Signal)
    ensures
        set.minus(sig)@ == set@.remove(sig),
{
    lemma_positions();
    assert forall|s: Signal| #[trigger] set.minus(sig).has(s) == (set.has(s) && s != sig) by {
        lemma_mask_ops(set.bits, sig.position(), s.position());
        if s.position() == sig.position() {
            assert(signal_at(s.position() as int) == signal_at(sig.position() as int));
        }
    }
    assert(set.minus(sig)@ =~= set@.remove(sig));
}

proof fn lemma_listed_from(set: SignalSet, i: nat)
    ensures
        forall|k: int|
            0 <= k < set.listed_from(i).len() ==> (#[trigger] set.listed_from(i)[k]).position() >= i
                && set.has(set.listed_from(i)[k]),
        forall|s: Signal| set.has(s) && s.position() >= i ==> #[trigger] set.listed_from(i).contains(s),
        forall|a: int, b: int|
            0 <= a < b < set.listed_from(i).len() ==> (#[trigger] set.listed_from(i)[a]).position()
                < (#[trigger] set.listed_from(i)[b]).position(),
    decreases 7 - i,
{
    lemma_positions();
    if i < 7 {
        lemma_listed_from(set, i + 1);
        let rest = set.listed_from(i + 1);
        let here = signal_at(i as int);
        if set.has(here) {
            assert(set.listed_from(i) == seq![here] + rest);
            assert forall|s: Signal| set.has(s) && s.position() >= i implies #[trigger] set.listed_from(
                i,
            ).contains(s) by {
                if s.position() == i {
                    assert(s == here);
                    assert(set.listed_from(i)[0] == s);
                } else {
                    assert(rest.contains(s));
                    let k = choose|k: int| 0 <= k < rest.len() && rest[k] == s;
                    assert(set.listed_from(i)[k + 1] == s);
                }
            }
        } else {
            assert forall|s: Signal| set.has(s) && s.position() >= i implies #[trigger] set.listed_from(
                i,
            ).contains(s) by {
                if s.position() == i {
                    assert(s == here);
                } else {
                    assert(rest.contains(s));
                }
            }
        }
    }
}

/// Iteration yields every enabled signal exactly once, nothing else,
/// in strictly increasing canonical position; hence the number of
/// signals yielded is the number of signals in the set.
pub proof fn lemma_members(set: SignalSet)
    ensures
        set.members().to_set() == set@,
        set.members().no_duplicates(),
        set@.finite(),
        set@.len() == set.members().len(),
        forall|a: int, b: int|
            0 <= a < b < set.members().len() ==> (#[trigger] set.members()[a]).position() < (
            #[trigger] set.members()[b]).position(),
{
    lemma_listed_from(set, 0);
    let m = set.members();
    assert forall|a: int, b: int| 0 <= a < m.len() && 0 <= b < m.len() && a != b implies m[a]
        != m[b] by {
        if a < b {
            assert(m[a].position() < m[b].position());
        } else {
            assert(m[b].position() < m[a].position());
        }
    }
    assert(m.to_set() =~= set@);
    m.unique_seq_to_set();
}

/// `set.with(sig).without(sig) == set.without(sig)`.
pub proof fn law_with_then_without(set: SignalSet, sig: Signal)
    ensures
        set.plus(sig).minus(sig) == set.minus(sig),
{
    lemma_with_without_bits(set.bits, sig.position());
}

/// `set.without(sig).with(sig) == set.with(sig)`, and the result
/// contains `sig`.
pub proof fn law_without_then_with(set: SignalSet, sig: Signal)
    ensures
        set.minus(sig).plus(sig) == set.plus(sig),
        set.minus(sig).plus(sig)@.contains(sig),
{
    lemma_with_without_bits(set.bits, sig.position());
    lemma_plus_view(set.minus(sig), sig);
}

/// Enabling or disabling a signal twice is the same as doing it once.
pub proof fn law_with_without_idempotent(set: SignalSet, sig: Signal)
    ensures
        set.plus(sig).plus(sig) == set.plus(sig),
        set.minus(sig).minus(sig) == set.minus(sig),
{
    lemma_with_without_bits(set.bits, sig.position());
}

/// Enabling or disabling `sig` leaves every other signal as it was.
pub proof fn law_with_without_other(set: SignalSet, sig: Signal, other: Signal)
    requires
        sig != other,
    ensures
        set.plus(sig)@.contains(other) == set@.contains(other),
        set.minus(sig)@.contains(other) == set@.contains(other),
{
    lemma_plus_view(set, sig);
    lemma_minus_view(set, sig);
}

/// Two valid sets with the same signals are the same value.
pub proof fn law_view_determines_set(a: SignalSet, b: SignalSet)
    requires
        a.valid(),
        b.valid(),
        a@ == b@,
    ensures
        a == b,
{
    lemma_positions();
    assert(a@.contains(Signal::Terminate) == a.has(Signal::Terminate) && b@.contains(Signal::Terminate) == b.has(Signal::Terminate));
    assert(a@.contains(Signal::Interrupt) == a.has(Signal::Interrupt) && b@.contains(Signal::Interrupt) == b.has(Signal::Interrupt));
    assert(a@.contains(Signal::Quit) == a.has(Signal::Quit) && b@.contains(Signal::Quit) == b.has(Signal::Quit));
    assert(a@.contains(Signal::Hangup) == a.has(Signal::Hangup) && b@.contains(Signal::Hangup) == b.has(Signal::Hangup));
    assert(a@.contains(Signal::Pipe) == a.has(Signal::Pipe) && b@.contains(Signal::Pipe) == b.has(Signal::Pipe));
    assert(a@.contains(Signal::User1) == a.has(Signal::User1) && b@.contains(Signal::User1) == b.has(Signal::User1));
    assert(a@.contains(Signal::User2) == a.has(Signal::User2) && b@.contains(Signal::User2) == b.has(Signal::User2));
    lemma_bits_ext(a.bits, b.bits);
}

proof fn lemma_with_without_bits(b: u16, i: u16)
    by (bit_vector)
    requires
        i < 7,
    ensures
        ((b | (1u16 << i)) & !(1u16 << i)) == (b & !(1u16 << i)),
        ((b & !(1u16 << i)) | (1u16 << i)) == (b | (1u16 << i)),
        ((b | (1u16 << i)) | (1u16 << i)) == (b | (1u16 << i)),
        ((b & !(1u16 << i)) & !(1u16 << i)) == (b & !(1u16 << i)),
{
}

} // verus!
