//! Unsigned integers that are not zero.
use vstd::prelude::*;

verus! {

/// A `u8` that is not zero.
#[derive(Clone, Copy, Debug, PartialEq, Eq)]
pub struct NonZeroU8 {
    value: u8,
}

/// A `u16` that is not zero.
#[derive(Clone, Copy, Debug, PartialEq, Eq)]
pub struct NonZeroU16 {
    value: u16,
}

/// A `u32` that is not zero.
#[derive(Clone, Copy, Debug, PartialEq, Eq)]
pub struct NonZeroU32 {
    value: u32,
}

impl View for NonZeroU8 {
    type V = u8;

    closed spec fn view(&self) -> u8 {
        self.value
    }
}

impl View for NonZeroU16 {
    type V = u16;

    closed spec fn view(&self) -> u16 {
        self.value
    }
}

impl View for NonZeroU32 {
    type V = u32;

    closed spec fn view(&self) -> u32 {
        self.value
    }
}

impl NonZeroU8 {
    #[verifier::type_invariant]
    spec fn not_zero(self) -> bool {
        self.value != 0
    }

    /// The number, unless it is zero.
    pub fn new(value: u8) -> (number: Option<Self>)
        ensures
            number is Some <==> value != 0,
            number matches Some(n) ==> n@ == value,
    {
        if value != 0 {
            Some(NonZeroU8 { value })
        } else {
            None
        }
    }

    /// The number as a plain integer.
    pub fn get(&self) -> (value: u8)
        ensures
            value == self@,
            value != 0,
    {
        proof {
            use_type_invariant(self);
        }
        self.value
    }
}

impl NonZeroU16 {
    #[verifier::type_invariant]
    spec fn not_zero(self) -> bool {
        self.value != 0
    }

    /// The number, unless it is zero.
    pub fn new(value: u16) -> (number: Option<Self>)
        ensures
            number is Some <==> value != 0,
            number matches Some(n) ==> n@ == value,
    {
        if value != 0 {
            Some(NonZeroU16 { value })
        } else {
            None
        }
    }

    /// The number as a plain integer.
    pub fn get(&self) -> (value: u16)
        ensures
            value == self@,
            value != 0,
    {
        proof {
            use_type_invariant(self);
        }
        self.value
    }
}

impl NonZeroU32 {
    #[verifier::type_invariant]
    spec fn not_zero(self) -> bool {
        self.value != 0
    }

    /// The number, unless it is zero.
    pub fn new(value: u32) -> (number: Option<Self>)
        ensures
            number is Some <==> value != 0,
            number matches Some(n) ==> n@ == value,
    {
        if value != 0 {
            Some(NonZeroU32 { value })
        } else {
            None
        }
    }

    /// The number as a plain integer.
    pub fn get(&self) -> (value: u32)
        ensures
            value == self@,
            value != 0,
    {
        proof {
            use_type_invariant(self);
        }
        self.value
    }
}

/// A number goes in exactly where it is not zero, and comes out as it went in.
pub proof fn law_nonzero_u8_keeps_its_value(
    value: u8,
    number: Option<NonZeroU8>,
    read: u8,
)
    requires
        call_ensures(NonZeroU8::new, (value,), number),
        number is Some ==> call_ensures(NonZeroU8::get, (&number->0,), read),
    ensures
        number is Some <==> value != 0,
        number is Some ==> read == value,
{
}

/// A number goes in exactly where it is not zero, and comes out as it went in.
pub proof fn law_nonzero_u16_keeps_its_value(
    value: u16,
    number: Option<NonZeroU16>,
    read: u16,
)
    requires
        call_ensures(NonZeroU16::new, (value,), number),
        number is Some ==> call_ensures(NonZeroU16::get, (&number->0,), read),
    ensures
        number is Some <==> value != 0,
        number is Some ==> read == value,
{
}

/// A number goes in exactly where it is not zero, and comes out as it went in.
pub proof fn law_nonzero_u32_keeps_its_value(
    value: u32,
    number: Option<NonZeroU32>,
    read: u32,
)
    requires
        call_ensures(NonZeroU32::new, (value,), number),
        number is Some ==> call_ensures(NonZeroU32::get, (&number->0,), read),
    ensures
        number is Some <==> value != 0,
        number is Some ==> read == value,
{
}

} // verus!
