use vstd::prelude::*;

verus! {

/// Whether every bit of `other` is set in `bits`.
pub open spec fn bits_contain(bits: u64, other: u64) -> bool {
    bits & other == other
}

/// The union of two option sets contains each of them.
pub proof fn lemma_union_contains_operands(a: u64, b: u64)
    ensures
        bits_contain(a | b, a),
        bits_contain(a | b, b),
{
    assert((a | b) & a == a && (a | b) & b == b) by (bit_vector);
}

/// An option set contains itself and the empty set.
pub proof fn lemma_contains_reflexive_and_empty(a: u64)
    ensures
        bits_contain(a, a),
        bits_contain(a, 0),
{
    assert(a & a == a && a & 0 == 0) by (bit_vector);
}

/// The empty option set contains only the empty set.
pub proof fn lemma_empty_contains_only_empty(b: u64)
    ensures
        bits_contain(0, b) <==> b == 0,
{
    assert(0u64 & b == b <==> b == 0) by (bit_vector);
}

/// Containment is transitive.
pub proof fn lemma_contains_transitive(a: u64, b: u64, c: u64)
    requires
        bits_contain(a, b),
        bits_contain(b, c),
    ensures
        bits_contain(a, c),
{
    assert(a & c == c) by (bit_vector)
        requires
            a & b == b,
            b & c == c,
    ;
}

/// Containment is antisymmetric: two option sets that contain each other are
/// the same set.
pub proof fn lemma_contains_antisymmetric(a: u64, b: u64)
    requires
        bits_contain(a, b),
        bits_contain(b, a),
    ensures
        a == b,
{
    assert(a == b) by (bit_vector)
        requires
            a & b == b,
            b & a == a,
    ;
}

/// An option set contains a union exactly when it contains both operands.
pub proof fn lemma_contains_union(a: u64, b: u64, c: u64)
    ensures
        bits_contain(a, b | c) <==> (bits_contain(a, b) && bits_contain(a, c)),
{
    assert(a & (b | c) == (b | c) <==> (a & b == b && a & c == c)) by (bit_vector);
}

/// Union is commutative, associative and idempotent, and the empty set is
/// its identity.
pub proof fn lemma_union_algebra(a: u64, b: u64, c: u64)
    ensures
        a | b == b | a,
        (a | b) | c == a | (b | c),
        a | a == a,
        a | 0 == a,
{
    assert(a | b == b | a && (a | b) | c == a | (b | c) && a | a == a && a | 0 == a)
        by (bit_vector);
}

/// Wraps a raw `UserNotifications` option-set bitmask.
#[derive(Debug, Clone, Copy, PartialEq, Eq, Hash, Default, Structural)]
pub struct AuthorizationOptions(u64);

impl View for AuthorizationOptions {
    type V = u64;

    closed spec fn view(&self) -> u64 {
        self.0
    }
}

impl AuthorizationOptions {
    /// Creates the option set from raw framework bits.
    pub fn from_bits(bits: u64) -> (r: Self)
        ensures
            r@ == bits,
            r == Self::spec_from_bits(bits),
    {
        Self(bits)
    }

    /// The option set with the given raw bits.
    pub closed spec fn spec_from_bits(bits: u64) -> Self {
        Self(bits)
    }

    /// An option set is the set made from its own bits, and the set made
    /// from some bits has those bits.
    pub proof fn lemma_from_bits_view(self)
        ensures
            Self::spec_from_bits(self@) == self,
            forall|bits: u64| (#[trigger] Self::spec_from_bits(bits))@ == bits,
    {
    }

    /// Returns the raw framework bits for this option set.
    pub fn bits(self) -> (r: u64)
        ensures
            r == self@,
    {
        self.0
    }

    /// Returns whether all bits in `other` are present in this option set.
    pub fn contains(self, other: Self) -> (r: bool)
        ensures
            r == bits_contain(self@, other@),
    {
        (self.0 & other.0) == other.0
    }

    /// No flags.
    #[allow(non_snake_case)]
    pub fn NONE() -> (r: Self)
        ensures
            r@ == 0,
    {
        Self(0)
    }

    /// The badge flag.
    #[allow(non_snake_case)]
    pub fn BADGE() -> (r: Self)
        ensures
            r@ == 1,
    {
        Self(1)
    }

    /// The sound flag.
    #[allow(non_snake_case)]
    pub fn SOUND() -> (r: Self)
        ensures
            r@ == 2,
    {
        Self(2)
    }

    /// The alert flag.
    #[allow(non_snake_case)]
    pub fn ALERT() -> (r: Self)
        ensures
            r@ == 4,
    {
        Self(4)
    }

    /// The car play flag.
    #[allow(non_snake_case)]
    pub fn CAR_PLAY() -> (r: Self)
        ensures
            r@ == 8,
    {
        Self(8)
    }

    /// The critical alert flag.
    #[allow(non_snake_case)]
    pub fn CRITICAL_ALERT() -> (r: Self)
        ensures
            r@ == 16,
    {
        Self(16)
    }

    /// The provides app notification settings flag.
    #[allow(non_snake_case)]
    pub fn PROVIDES_APP_NOTIFICATION_SETTINGS() -> (r: Self)
        ensures
            r@ == 32,
    {
        Self(32)
    }

    /// The provisional flag.
    #[allow(non_snake_case)]
    pub fn PROVISIONAL() -> (r: Self)
        ensures
            r@ == 64,
    {
        Self(64)
    }

    /// The time sensitive flag.
    #[allow(non_snake_case)]
    pub fn TIME_SENSITIVE() -> (r: Self)
        ensures
            r@ == 256,
    {
        Self(256)
    }

}

impl core::ops::BitOr for AuthorizationOptions {
    type Output = Self;

    fn bitor(self, rhs: Self) -> (r: Self)
        ensures
            r@ == self@ | rhs@,
    {
        Self(self.0 | rhs.0)
    }
}

impl vstd::std_specs::ops::BitOrSpecImpl for AuthorizationOptions {
    open spec fn obeys_bitor_spec() -> bool {
        true
    }

    open spec fn bitor_req(self, rhs: Self) -> bool {
        true
    }

    closed spec fn bitor_spec(self, rhs: Self) -> Self {
        Self(self.0 | rhs.0)
    }
}

impl core::ops::BitOrAssign for AuthorizationOptions {
    fn bitor_assign(&mut self, rhs: Self)
        ensures
            final(self)@ == old(self)@ | rhs@,
    {
        self.0 = self.0 | rhs.0;
    }
}

/// Wraps a raw `UserNotifications` option-set bitmask.
#[derive(Debug, Clone, Copy, PartialEq, Eq, Hash, Default, Structural)]
pub struct NotificationPresentationOptions(u64);

impl View for NotificationPresentationOptions {
    type V = u64;

    closed spec fn view(&self) -> u64 {
        self.0
    }
}

impl NotificationPresentationOptions {
    /// Creates the option set from raw framework bits.
    pub fn from_bits(bits: u64) -> (r: Self)
        ensures
            r@ == bits,
            r == Self::spec_from_bits(bits),
    {
        Self(bits)
    }

    /// The option set with the given raw bits.
    pub closed spec fn spec_from_bits(bits: u64) -> Self {
        Self(bits)
    }

    /// An option set is the set made from its own bits, and the set made
    /// from some bits has those bits.
    pub proof fn lemma_from_bits_view(self)
        ensures
            Self::spec_from_bits(self@) == self,
            forall|bits: u64| (#[trigger] Self::spec_from_bits(bits))@ == bits,
    {
    }

    /// Returns the raw framework bits for this option set.
    pub fn bits(self) -> (r: u64)
        ensures
            r == self@,
    {
        self.0
    }

    /// Returns whether all bits in `other` are present in this option set.
    pub fn contains(self, other: Self) -> (r: bool)
        ensures
            r == bits_contain(self@, other@),
    {
        (self.0 & other.0) == other.0
    }

    /// No flags.
    #[allow(non_snake_case)]
    pub fn NONE() -> (r: Self)
        ensures
            r@ == 0,
    {
        Self(0)
    }

    /// The badge flag.
    #[allow(non_snake_case)]
    pub fn BADGE() -> (r: Self)
        ensures
            r@ == 1,
    {
        Self(1)
    }

    /// The sound flag.
    #[allow(non_snake_case)]
    pub fn SOUND() -> (r: Self)
        ensures
            r@ == 2,
    {
        Self(2)
    }

    /// The alert flag.
    #[allow(non_snake_case)]
    pub fn ALERT() -> (r: Self)
        ensures
            r@ == 4,
    {
        Self(4)
    }

    /// The list flag.
    #[allow(non_snake_case)]
    pub fn LIST() -> (r: Self)
        ensures
            r@ == 8,
    {
        Self(8)
    }

    /// The banner flag.
    #[allow(non_snake_case)]
    pub fn BANNER() -> (r: Self)
        ensures
            r@ == 16,
    {
        Self(16)
    }

}

impl core::ops::BitOr for NotificationPresentationOptions {
    type Output = Self;

    fn bitor(self, rhs: Self) -> (r: Self)
        ensures
            r@ == self@ | rhs@,
    {
        Self(self.0 | rhs.0)
    }
}

impl vstd::std_specs::ops::BitOrSpecImpl for NotificationPresentationOptions {
    open spec fn obeys_bitor_spec() -> bool {
        true
    }

    open spec fn bitor_req(self, rhs: Self) -> bool {
        true
    }

    closed spec fn bitor_spec(self, rhs: Self) -> Self {
        Self(self.0 | rhs.0)
    }
}

impl core::ops::BitOrAssign for NotificationPresentationOptions {
    fn bitor_assign(&mut self, rhs: Self)
        ensures
            final(self)@ == old(self)@ | rhs@,
    {
        self.0 = self.0 | rhs.0;
    }
}

/// Wraps a raw `UserNotifications` option-set bitmask.
#[derive(Debug, Clone, Copy, PartialEq, Eq, Hash, Default, Structural)]
pub struct NotificationActionOptions(u64);

impl View for NotificationActionOptions {
    type V = u64;

    closed spec fn view(&self) -> u64 {
        self.0
    }
}

impl NotificationActionOptions {
    /// Creates the option set from raw framework bits.
    pub fn from_bits(bits: u64) -> (r: Self)
        ensures
            r@ == bits,
            r == Self::spec_from_bits(bits),
    {
        Self(bits)
    }

    /// The option set with the given raw bits.
    pub closed spec fn spec_from_bits(bits: u64) -> Self {
        Self(bits)
    }

    /// An option set is the set made from its own bits, and the set made
    /// from some bits has those bits.
    pub proof fn lemma_from_bits_view(self)
        ensures
            Self::spec_from_bits(self@) == self,
            forall|bits: u64| (#[trigger] Self::spec_from_bits(bits))@ == bits,
    {
    }

    /// Returns the raw framework bits for this option set.
    pub fn bits(self) -> (r: u64)
        ensures
            r == self@,
    {
        self.0
    }

    /// Returns whether all bits in `other` are present in this option set.
    pub fn contains(self, other: Self) -> (r: bool)
        ensures
            r == bits_contain(self@, other@),
    {
        (self.0 & other.0) == other.0
    }

    /// No flags.
    #[allow(non_snake_case)]
    pub fn NONE() -> (r: Self)
        ensures
            r@ == 0,
    {
        Self(0)
    }

    /// The authentication required flag.
    #[allow(non_snake_case)]
    pub fn AUTHENTICATION_REQUIRED() -> (r: Self)
        ensures
            r@ == 1,
    {
        Self(1)
    }

    /// The destructive flag.
    #[allow(non_snake_case)]
    pub fn DESTRUCTIVE() -> (r: Self)
        ensures
            r@ == 2,
    {
        Self(2)
    }

    /// The foreground flag.
    #[allow(non_snake_case)]
    pub fn FOREGROUND() -> (r: Self)
        ensures
            r@ == 4,
    {
        Self(4)
    }

}

impl core::ops::BitOr for NotificationActionOptions {
    type Output = Self;

    fn bitor(self, rhs: Self) -> (r: Self)
        ensures
            r@ == self@ | rhs@,
    {
        Self(self.0 | rhs.0)
    }
}

impl vstd::std_specs::ops::BitOrSpecImpl for NotificationActionOptions {
    open spec fn obeys_bitor_spec() -> bool {
        true
    }

    open spec fn bitor_req(self, rhs: Self) -> bool {
        true
    }

    closed spec fn bitor_spec(self, rhs: Self) -> Self {
        Self(self.0 | rhs.0)
    }
}

impl core::ops::BitOrAssign for NotificationActionOptions {
    fn bitor_assign(&mut self, rhs: Self)
        ensures
            final(self)@ == old(self)@ | rhs@,
    {
        self.0 = self.0 | rhs.0;
    }
}

/// Wraps a raw `UserNotifications` option-set bitmask.
#[derive(Debug, Clone, Copy, PartialEq, Eq, Hash, Default, Structural)]
pub struct NotificationCategoryOptions(u64);

impl View for NotificationCategoryOptions {
    type V = u64;

    closed spec fn view(&self) -> u64 {
        self.0
    }
}

impl NotificationCategoryOptions {
    /// Creates the option set from raw framework bits.
    pub fn from_bits(bits: u64) -> (r: Self)
        ensures
            r@ == bits,
            r == Self::spec_from_bits(bits),
    {
        Self(bits)
    }

    /// The option set with the given raw bits.
    pub closed spec fn spec_from_bits(bits: u64) -> Self {
        Self(bits)
    }

    /// An option set is the set made from its own bits, and the set made
    /// from some bits has those bits.
    pub proof fn lemma_from_bits_view(self)
        ensures
            Self::spec_from_bits(self@) == self,
            forall|bits: u64| (#[trigger] Self::spec_from_bits(bits))@ == bits,
    {
    }

    /// Returns the raw framework bits for this option set.
    pub fn bits(self) -> (r: u64)
        ensures
            r == self@,
    {
        self.0
    }

    /// Returns whether all bits in `other` are present in this option set.
    pub fn contains(self, other: Self) -> (r: bool)
        ensures
            r == bits_contain(self@, other@),
    {
        (self.0 & other.0) == other.0
    }

    /// No flags.
    #[allow(non_snake_case)]
    pub fn NONE() -> (r: Self)
        ensures
            r@ == 0,
    {
        Self(0)
    }

    /// The custom dismiss action flag.
    #[allow(non_snake_case)]
    pub fn CUSTOM_DISMISS_ACTION() -> (r: Self)
        ensures
            r@ == 1,
    {
        Self(1)
    }

    /// The hidden previews show title flag.
    #[allow(non_snake_case)]
    pub fn HIDDEN_PREVIEWS_SHOW_TITLE() -> (r: Self)
        ensures
            r@ == 4,
    {
        Self(4)
    }

    /// The hidden previews show subtitle flag.
    #[allow(non_snake_case)]
    pub fn HIDDEN_PREVIEWS_SHOW_SUBTITLE() -> (r: Self)
        ensures
            r@ == 8,
    {
        Self(8)
    }

}

impl core::ops::BitOr for NotificationCategoryOptions {
    type Output = Self;

    fn bitor(self, rhs: Self) -> (r: Self)
        ensures
            r@ == self@ | rhs@,
    {
        Self(self.0 | rhs.0)
    }
}

impl vstd::std_specs::ops::BitOrSpecImpl for NotificationCategoryOptions {
    open spec fn obeys_bitor_spec() -> bool {
        true
    }

    open spec fn bitor_req(self, rhs: Self) -> bool {
        true
    }

    closed spec fn bitor_spec(self, rhs: Self) -> Self {
        Self(self.0 | rhs.0)
    }
}

impl core::ops::BitOrAssign for NotificationCategoryOptions {
    fn bitor_assign(&mut self, rhs: Self)
        ensures
            final(self)@ == old(self)@ | rhs@,
    {
        self.0 = self.0 | rhs.0;
    }
}

} // verus!
