use vstd::prelude::*;
use vstd::string::*;
use crate::number::{digit_char, digit_to_char, digit_value, is_digit, lemma_digit_char, push_char};

verus! {

/// Why a coordinate cell could not be read.
#[derive(Debug, Clone, Copy, PartialEq, Eq, Structural)]
pub enum CoordinateError {
    /// The text does not have the fixed number of characters.
    InvalidLength,
    /// A two-character component is not a pair of decimal digits.
    InvalidComponent,
    /// The hemisphere digit of a longitude is neither `1` nor `2`.
    InvalidDirection,
}

/// Degrees, minutes and seconds of an angle, each written with two digits.
///
/// The components are not held to 60 minutes or seconds: the text form bounds
/// each of them to 99 and nothing more.
#[derive(Debug)]
pub struct CardinalPoint {
    degrees: u32,
    minutes: u32,
    seconds: u32,
}

impl View for CardinalPoint {
    type V = (u32, u32, u32);

    closed spec fn view(&self) -> (u32, u32, u32) {
        (self.degrees, self.minutes, self.seconds)
    }
}

/// Whether every component of a point is in `[0, 99]`.
pub open spec fn components_in_range(v: (u32, u32, u32)) -> bool {
    v.0 <= 99 && v.1 <= 99 && v.2 <= 99
}

/// The value of the two digits of `s` at `at` and `at + 1`.
pub open spec fn pair_value(s: Seq<char>, at: int) -> u32 {
    (digit_value(s[at]) * 10 + digit_value(s[at + 1])) as u32
}

pub open spec fn all_six_digits(s: Seq<char>) -> bool {
    is_digit(s[0]) && is_digit(s[1]) && is_digit(s[2]) && is_digit(s[3]) && is_digit(s[4])
        && is_digit(s[5])
}

/// What the six-character text form of a point decodes to.
pub open spec fn cardinal_of(s: Seq<char>) -> Result<(u32, u32, u32), CoordinateError> {
    if s.len() != 6 {
        Err(CoordinateError::InvalidLength)
    } else if !all_six_digits(s) {
        Err(CoordinateError::InvalidComponent)
    } else {
        Ok((pair_value(s, 0), pair_value(s, 2), pair_value(s, 4)))
    }
}

/// `n`, below 100, as two digits with a leading zero.
pub open spec fn two_digits(n: u32) -> Seq<char> {
    seq![digit_char(n / 10), digit_char(n % 10)]
}

/// The six-character text form of a point.
pub open spec fn cardinal_text(v: (u32, u32, u32)) -> Seq<char> {
    two_digits(v.0) + two_digits(v.1) + two_digits(v.2)
}

fn push_two_digits(out: &mut String, n: u32)
    requires
        n <= 99,
    ensures
        final(out)@ == old(out)@ + two_digits(n),
{
    push_char(out, digit_to_char(n / 10));
    push_char(out, digit_to_char(n % 10));
    assert(final(out)@ =~= old(out)@ + two_digits(n));
}

fn pair_at(s: &str, at: usize) -> (r: Option<u32>)
    requires
        at < 5,
        at + 1 < s@.len(),
    ensures
        is_digit(s@[at as int]) && is_digit(s@[at + 1]) ==> r == Some(pair_value(s@, at as int)),
        !(is_digit(s@[at as int]) && is_digit(s@[at + 1])) ==> r is None,
{
    let hi = s.get_char(at);
    let lo = s.get_char(at + 1);
    if '0' <= hi && hi <= '9' && '0' <= lo && lo <= '9' {
        Some((hi as u32 - '0' as u32) * 10 + (lo as u32 - '0' as u32))
    } else {
        None
    }
}

impl CardinalPoint {
    #[verifier::type_invariant]
    spec fn inv(self) -> bool {
        components_in_range(self@)
    }

    /// A point from its components; `None` where one of them is over 99.
    pub fn new(degrees: u32, minutes: u32, seconds: u32) -> (r: Option<Self>)
        ensures
            r is Some <==> components_in_range((degrees, minutes, seconds)),
            r is Some ==> r->Some_0@ == (degrees, minutes, seconds),
    {
        if degrees <= 99 && minutes <= 99 && seconds <= 99 {
            Some(CardinalPoint { degrees, minutes, seconds })
        } else {
            None
        }
    }

    pub fn degrees(&self) -> (r: u32)
        ensures
            r == self@.0,
    {
        self.degrees
    }

    pub fn minutes(&self) -> (r: u32)
        ensures
            r == self@.1,
    {
        self.minutes
    }

    pub fn seconds(&self) -> (r: u32)
        ensures
            r == self@.2,
    {
        self.seconds
    }

    pub fn copy_point(&self) -> (r: Self)
        ensures
            r@ == self@,
    {
        proof {
            use_type_invariant(self);
        }
        CardinalPoint { degrees: self.degrees, minutes: self.minutes, seconds: self.seconds }
    }

    /// The six-digit text form: two zero-padded digits per component.
    pub fn to_string(&self) -> (r: String)
        ensures
            r@ == cardinal_text(self@),
            r@.len() == 6,
    {
        proof {
            use_type_invariant(self);
        }
        let mut out = String::new();
        push_two_digits(&mut out, self.degrees);
        push_two_digits(&mut out, self.minutes);
        push_two_digits(&mut out, self.seconds);
        assert(out@ =~= cardinal_text(self@));
        out
    }

    /// Reads the six-digit text form.
    pub fn from_str(s: &str) -> (r: Result<Self, CoordinateError>)
        ensures
            match cardinal_of(s@) {
                Ok(v) => r is Ok && r->Ok_0@ == v,
                Err(e) => r == Err::<Self, CoordinateError>(e),
            },
    {
        if s.unicode_len() != 6 {
            return Err(CoordinateError::InvalidLength);
        }
        let degrees = pair_at(s, 0);
        let minutes = pair_at(s, 2);
        let seconds = pair_at(s, 4);
        match (degrees, minutes, seconds) {
            (Some(degrees), Some(minutes), Some(seconds)) => {
                Ok(CardinalPoint { degrees, minutes, seconds })
            },
            _ => Err(CoordinateError::InvalidComponent),
        }
    }
}

/// Decoding the text form of a point in range gives the point back.
pub proof fn lemma_cardinal_round_trip(v: (u32, u32, u32))
    requires
        components_in_range(v),
    ensures
        cardinal_of(cardinal_text(v)) == Ok::<(u32, u32, u32), CoordinateError>(v),
{
    let t = cardinal_text(v);
    lemma_two_digits(v.0);
    lemma_two_digits(v.1);
    lemma_two_digits(v.2);
    assert(t.subrange(0, 2) =~= two_digits(v.0));
    assert(t.subrange(2, 4) =~= two_digits(v.1));
    assert(t.subrange(4, 6) =~= two_digits(v.2));
    assert(t[0] == two_digits(v.0)[0] && t[1] == two_digits(v.0)[1]);
    assert(t[2] == two_digits(v.1)[0] && t[3] == two_digits(v.1)[1]);
    assert(t[4] == two_digits(v.2)[0] && t[5] == two_digits(v.2)[1]);
}

/// The six-digit form is rejected on any other length, and on a component
/// that is not two decimal digits.
pub proof fn lemma_cardinal_rejects(s: Seq<char>)
    ensures
        s.len() != 6 ==> cardinal_of(s) == Err::<(u32, u32, u32), CoordinateError>(
            CoordinateError::InvalidLength,
        ),
        (s.len() == 6 && (exists|i: int| 0 <= i < 6 && !is_digit(#[trigger] s[i]))) ==> cardinal_of(
            s,
        ) == Err::<(u32, u32, u32), CoordinateError>(CoordinateError::InvalidComponent),
        cardinal_of(s) is Ok ==> s.len() == 6 && forall|i: int| 0 <= i < 6 ==> is_digit(#[trigger] s[i]),
{
    if s.len() == 6 && exists|i: int| 0 <= i < 6 && !is_digit(#[trigger] s[i]) {
        let i = choose|i: int| 0 <= i < 6 && !is_digit(#[trigger] s[i]);
        assert(!all_six_digits(s)) by {
            if i == 0 {
            } else if i == 1 {
            } else if i == 2 {
            } else if i == 3 {
            } else if i == 4 {
            } else {
            }
        }
    }
    if cardinal_of(s) is Ok {
        assert forall|i: int| 0 <= i < 6 implies is_digit(#[trigger] s[i]) by {
            assert(all_six_digits(s));
            if i == 0 {
            } else if i == 1 {
            } else if i == 2 {
            } else if i == 3 {
            } else if i == 4 {
            } else {
            }
        }
    }
}

proof fn lemma_two_digits(n: u32)
    requires
        n <= 99,
    ensures
        two_digits(n).len() == 2,
        is_digit(two_digits(n)[0]) && is_digit(two_digits(n)[1]),
        pair_value(two_digits(n), 0) == n,
{
    lemma_digit_char(n / 10);
    lemma_digit_char(n % 10);
}

/// The hemisphere of a longitude.
#[derive(Debug, Clone, Copy, PartialEq, Eq, Structural)]
pub enum LongitudeDirection {
    East,
    West,
}

/// A longitude: its angle and its hemisphere. Its text form is the six digits
/// of the angle followed by `1` for East or `2` for West.
#[derive(Debug)]
pub struct Longitude {
    pub point: CardinalPoint,
    pub direction: LongitudeDirection,
}

/// A latitude. The tables carry no hemisphere for it: its text form is the six
/// digits of the angle.
#[derive(Debug)]
pub struct Latitude(pub CardinalPoint);

/// The digit that stands for a hemisphere.
pub open spec fn direction_char(d: LongitudeDirection) -> char {
    match d {
        LongitudeDirection::East => '1',
        LongitudeDirection::West => '2',
    }
}

/// What the seven-character text form of a longitude decodes to.
pub open spec fn longitude_of(s: Seq<char>) -> Result<
    ((u32, u32, u32), LongitudeDirection),
    CoordinateError,
> {
    if s.len() != 7 {
        Err(CoordinateError::InvalidLength)
    } else {
        match cardinal_of(s.take(6)) {
            Err(e) => Err(e),
            Ok(v) => if s[6] == '1' {
                Ok((v, LongitudeDirection::East))
            } else if s[6] == '2' {
                Ok((v, LongitudeDirection::West))
            } else {
                Err(CoordinateError::InvalidDirection)
            },
        }
    }
}

/// The text form of a longitude.
pub open spec fn longitude_text(v: (u32, u32, u32), d: LongitudeDirection) -> Seq<char> {
    cardinal_text(v).push(direction_char(d))
}

impl Longitude {
    /// Reads the seven-character text form.
    pub fn decode(s: &str) -> (r: Result<Self, CoordinateError>)
        ensures
            match longitude_of(s@) {
                Ok((v, d)) => r is Ok && r->Ok_0.point@ == v && r->Ok_0.direction == d,
                Err(e) => r is Err && r->Err_0 == e,
            },
    {
        if s.unicode_len() != 7 {
            return Err(CoordinateError::InvalidLength);
        }
        let angle = s.substring_char(0, 6);
        assert(angle@ == s@.take(6));
        let point = match CardinalPoint::from_str(angle) {
            Ok(p) => p,
            Err(e) => return Err(e),
        };
        let c = s.get_char(6);
        let direction = if c == '1' {
            LongitudeDirection::East
        } else if c == '2' {
            LongitudeDirection::West
        } else {
            return Err(CoordinateError::InvalidDirection);
        };
        Ok(Longitude { point, direction })
    }

    /// The seven-character text form.
    pub fn encode(&self) -> (r: String)
        ensures
            r@ == longitude_text(self.point@, self.direction),
    {
        let mut out = self.point.to_string();
        let c = match self.direction {
            LongitudeDirection::East => '1',
            LongitudeDirection::West => '2',
        };
        push_char(&mut out, c);
        out
    }
}

impl Latitude {
    /// Reads the six-digit text form.
    pub fn decode(s: &str) -> (r: Result<Self, CoordinateError>)
        ensures
            match cardinal_of(s@) {
                Ok(v) => r is Ok && r->Ok_0.0@ == v,
                Err(e) => r is Err && r->Err_0 == e,
            },
    {
        match CardinalPoint::from_str(s) {
            Ok(p) => Ok(Latitude(p)),
            Err(e) => Err(e),
        }
    }

    /// The six-digit text form.
    pub fn encode(&self) -> (r: String)
        ensures
            r@ == cardinal_text(self.0@),
    {
        self.0.to_string()
    }
}

/// Decoding the text form of a longitude in range gives the longitude back.
pub proof fn lemma_longitude_round_trip(v: (u32, u32, u32), d: LongitudeDirection)
    requires
        components_in_range(v),
    ensures
        longitude_of(longitude_text(v, d)) == Ok::<
            ((u32, u32, u32), LongitudeDirection),
            CoordinateError,
        >((v, d)),
{
    lemma_cardinal_round_trip(v);
    assert(longitude_text(v, d).take(6) =~= cardinal_text(v));
}

/// Decoding the text form of a latitude in range gives the latitude back.
pub proof fn lemma_latitude_round_trip(v: (u32, u32, u32))
    requires
        components_in_range(v),
    ensures
        cardinal_of(cardinal_text(v)) == Ok::<(u32, u32, u32), CoordinateError>(v),
{
    lemma_cardinal_round_trip(v);
}

} // verus!
