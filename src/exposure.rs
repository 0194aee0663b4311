//! The exposure of one image, and the APEX estimates derived from it.
use vstd::prelude::*;

use crate::fraction::{fraction_of, Fraction, PART_LIMIT};

verus! {

/// Offset of the vendor measured-EV encoding, in its 1/32 steps: a raw value
/// of zero stands for 5 EV.
pub const MEASURED_EV_OFFSET: i32 = 160;

/// Steps per exposure value in the vendor measured-EV encoding.
pub const MEASURED_EV_STEPS: i32 = 32;

/// The APEX reference sensitivity.
pub const ISO_REFERENCE: i32 = 100;

/// The exposure value that a raw vendor measured-EV reading encodes:
/// `raw / 32 + 5`.
pub open spec fn ev_of(raw: i32) -> Fraction {
    Fraction { num: (raw + MEASURED_EV_OFFSET) as i128, den: MEASURED_EV_STEPS as i128 }
}

/// Converts a raw vendor measured-EV reading (1/32 steps, zero at 5 EV) to
/// an exposure value in APEX units.
pub fn to_ev(input: i32) -> (r: Fraction)
    ensures
        r == ev_of(input),
        r.small(),
        r.denotes(input + 5 * 32, 32),
{
    Fraction {
        num: input as i128 + MEASURED_EV_OFFSET as i128,
        den: MEASURED_EV_STEPS as i128,
    }
}

/// An APEX value `offset + log2(log_arg)`. As an aperture value its
/// f-number is `2^(value / 2)`.
#[derive(Clone, Copy, Debug, PartialEq, Eq, Structural)]
pub struct ApexValue {
    pub offset: Fraction,
    pub log_arg: Fraction,
}

impl ApexValue {
    /// A well-formed offset and a positive argument to the logarithm.
    pub open spec fn wf(self) -> bool {
        self.offset.wf() && self.log_arg.is_positive()
    }
}

/// A rational metadata value as it is stored: `numer / denom`.
#[derive(Clone, Copy, Debug, PartialEq, Eq, Structural)]
pub struct RawRational {
    pub numer: i32,
    pub denom: i32,
}

/// The metadata readings of one image that an exposure is built from, as
/// plain values.
#[derive(Clone, Copy, Debug, PartialEq, Eq, Structural)]
pub struct ExifReading {
    /// The exposure time in seconds.
    pub exposure_time: Option<RawRational>,
    /// The ISO sensitivity.
    pub iso_speed: Option<i32>,
    /// The raw vendor measured-EV value, when that tag is present.
    pub measured_ev: Option<i32>,
    /// The standard shutter-speed value (Tv), in APEX units.
    pub shutter_speed_value: Option<RawRational>,
    /// The recorded f-number.
    pub f_number: Option<RawRational>,
    /// The flash field; zero when flash did not fire or the tag is absent.
    pub flash: i32,
}

/// A rational reading as a fraction; absent when it is absent or its
/// denominator is zero.
pub open spec fn optional_fraction(p: Option<RawRational>) -> Option<Fraction> {
    match p {
        Some(q) => if q.denom != 0 {
            Some(fraction_of(q.numer, q.denom))
        } else {
            None
        },
        None => None,
    }
}

/// Reads an optional rational value; a zero denominator reads as absent.
fn read_fraction(p: Option<RawRational>) -> (r: Option<Fraction>)
    ensures
        r == optional_fraction(p),
        optional_small(r),
{
    match p {
        Some(q) => Fraction::new(q.numer, q.denom),
        None => None,
    }
}

/// A fraction that is absent or small.
pub open spec fn optional_small(f: Option<Fraction>) -> bool {
    f matches Some(x) ==> x.small()
}

/// The capture parameters of one image.
#[derive(Clone, Copy, Debug, PartialEq, Eq, Structural)]
pub struct Exposure {
    /// The exposure time in seconds.
    pub speed: Fraction,
    /// The ISO sensitivity.
    pub iso: i32,
    /// The measured exposure value, in APEX units.
    pub ev: Option<Fraction>,
    /// The shutter-speed value, in APEX units.
    pub tv: Option<Fraction>,
    /// The f-number recorded in the image.
    pub aperture: Option<Fraction>,
    /// Whether flash fired.
    pub flash: bool,
}

impl Exposure {
    /// A positive speed and sensitivity; every fraction within bounds.
    pub open spec fn wf(self) -> bool {
        &&& self.speed.small()
        &&& self.speed.num > 0
        &&& self.iso > 0
        &&& optional_small(self.ev)
        &&& optional_small(self.tv)
        &&& optional_small(self.aperture)
    }

    /// The exposure that `reading` describes, if its exposure time and ISO
    /// sensitivity are present and positive.
    pub open spec fn of_reading(reading: ExifReading) -> Option<Exposure> {
        match (optional_fraction(reading.exposure_time), reading.iso_speed) {
            (Some(speed), Some(iso)) => if speed.num > 0 && iso > 0 {
                Some(
                    Exposure {
                        speed,
                        iso,
                        ev: match reading.measured_ev {
                            Some(raw) => Some(ev_of(raw)),
                            None => None,
                        },
                        tv: optional_fraction(reading.shutter_speed_value),
                        aperture: optional_fraction(reading.f_number),
                        flash: reading.flash != 0,
                    },
                )
            } else {
                None
            },
            _ => None,
        }
    }

    /// `a` is the EV-based aperture value: `ev + log2(speed * iso / 100)`.
    pub open spec fn is_ev_estimate(self, a: ApexValue) -> bool {
        &&& a.wf()
        &&& self.ev matches Some(ev) && a.offset.same_value(ev) && a.offset == ev
        &&& a.log_arg.denotes(self.speed.num * self.iso, self.speed.den * ISO_REFERENCE)
        &&& a.log_arg == self.speed.mul_spec(self.relative_iso())
    }

    /// `iso / 100`.
    pub open spec fn relative_iso(self) -> Fraction {
        Fraction { num: self.iso as i128, den: ISO_REFERENCE as i128 }
    }

    /// `a` is the Tv-based aperture value: `ev - tv + log2(iso / 100)`.
    pub open spec fn is_tv_estimate(self, a: ApexValue) -> bool {
        &&& a.wf()
        &&& self.ev matches Some(ev)
        &&& self.tv matches Some(tv)
        &&& a.offset.denotes(ev.num * tv.den - tv.num * ev.den, ev.den * tv.den)
        &&& a.offset == ev.sub_spec(tv)
        &&& a.log_arg == self.relative_iso()
    }

    /// `r` is the pair of aperture estimates of this exposure: none when
    /// flash fired; otherwise the EV-based one when `ev` is present and the
    /// Tv-based one when `ev` and `tv` are.
    pub open spec fn are_estimates(self, r: (Option<ApexValue>, Option<ApexValue>)) -> bool {
        &&& r.0 is Some <==> (!self.flash && self.ev is Some)
        &&& r.1 is Some <==> (!self.flash && self.ev is Some && self.tv is Some)
        &&& r.0 matches Some(a) ==> self.is_ev_estimate(a)
        &&& r.1 matches Some(a) ==> self.is_tv_estimate(a)
    }

    /// Builds the exposure of one image from its metadata readings; `None`
    /// when the exposure time or the ISO sensitivity is absent, unreadable
    /// or not positive.
    pub fn from_exif(reading: &ExifReading) -> (r: Option<Exposure>)
        ensures
            r == Exposure::of_reading(*reading),
            r matches Some(e) ==> e.wf(),
    {
        let speed = match read_fraction(reading.exposure_time) {
            Some(f) => f,
            None => return None,
        };
        let iso = match reading.iso_speed {
            Some(i) => i,
            None => return None,
        };
        if speed.num <= 0 || iso <= 0 {
            return None;
        }
        let ev = match reading.measured_ev {
            Some(raw) => Some(to_ev(raw)),
            None => None,
        };
        Some(
            Exposure {
                speed,
                iso,
                ev,
                tv: read_fraction(reading.shutter_speed_value),
                aperture: read_fraction(reading.f_number),
                flash: reading.flash != 0,
            },
        )
    }

    /// Estimates the aperture, as an APEX aperture value, in two ways: from
    /// the measured exposure value and the shutter time, and from the
    /// measured exposure value and the shutter-speed value. Neither is given
    /// when flash fired.
    ///
    /// The ISO term is added to the aperture value, `+ log2(iso / 100)`.
    /// Formulations that subtract it are also in use; this convention has not
    /// been confirmed against a reference exposure.
    pub fn compute_aperture(&self) -> (r: (Option<ApexValue>, Option<ApexValue>))
        requires
            self.wf(),
        ensures
            self.are_estimates(r),
            self.flash ==> r == (None::<ApexValue>, None::<ApexValue>),
            self.ev is None ==> r == (None::<ApexValue>, None::<ApexValue>),
    {
        if self.flash {
            return (None, None);
        }
        let relative_iso = Fraction { num: self.iso as i128, den: ISO_REFERENCE as i128 };
        let from_ev = match self.ev {
            Some(ev) => {
                let a = ApexValue { offset: ev, log_arg: self.speed.mul(relative_iso) };
                proof {
                    let (sn, sd, i) = (self.speed.num as int, self.speed.den as int, self.iso as int);
                    assert(sn * i > 0 && sd * 100 > 0) by (nonlinear_arith)
                        requires sn > 0, sd > 0, i > 0;
                }
                Some(a)
            },
            None => None,
        };
        let from_tv = match (self.ev, self.tv) {
            (Some(ev), Some(tv)) => Some(ApexValue { offset: ev.sub(tv), log_arg: relative_iso }),
            _ => None,
        };
        (from_ev, from_tv)
    }

    /// The APEX decomposition `(Av, Tv) = (ev - tv, tv + log2(speed))`, when
    /// `ev` and `tv` are both present; it does not look at flash.
    pub fn apex_pair(&self) -> (r: Option<(Fraction, ApexValue)>)
        requires
            self.wf(),
        ensures
            r is Some <==> (self.ev is Some && self.tv is Some),
            r matches Some((av, tv_apex)) ==> {
                &&& self.ev matches Some(ev)
                &&& self.tv matches Some(tv)
                &&& av.denotes(ev.num * tv.den - tv.num * ev.den, ev.den * tv.den)
                &&& av == ev.sub_spec(tv)
                &&& tv_apex.wf()
                &&& tv_apex == (ApexValue { offset: tv, log_arg: self.speed })
            },
    {
        match (self.ev, self.tv) {
            (Some(ev), Some(tv)) => Some((ev.sub(tv), ApexValue { offset: tv, log_arg: self.speed })),
            _ => None,
        }
    }

    /// An exposure with only its required fields: no measured EV, no
    /// shutter-speed value, no recorded f-number, and no flash. `None` when
    /// `speed` or `iso` is not positive, or `speed` is out of bounds.
    pub fn new(speed: Fraction, iso: i32) -> (r: Option<Exposure>)
        ensures
            r is Some <==> (speed.small() && speed.num > 0 && iso > 0),
            r matches Some(e) ==> {
                &&& e.wf()
                &&& e == (Exposure { speed, iso, ev: None, tv: None, aperture: None, flash: false })
            },
    {
        if speed.den <= 0 || speed.den > PART_LIMIT || speed.num <= 0 || speed.num > PART_LIMIT
            || iso <= 0 {
            None
        } else {
            Some(Exposure { speed, iso, ev: None, tv: None, aperture: None, flash: false })
        }
    }
}

/// The measured-EV conversion is exactly linear: 32 raw steps are one
/// exposure value, and a raw value of zero is 5 EV.
pub proof fn lemma_to_ev_linear(a: i32, b: i32)
    ensures
        ev_of(a).den == ev_of(b).den,
        ev_of(a).num - ev_of(b).num == a - b,
        ev_of(0).denotes(5, 1),
{
}

/// Flash withholds both aperture estimates, whatever `ev` and `tv` are.
pub proof fn lemma_flash_gives_no_estimate(e: Exposure, r: (Option<ApexValue>, Option<ApexValue>))
    requires
        e.wf(),
        e.flash,
        e.are_estimates(r),
    ensures
        r.0 is None,
        r.1 is None,
{
}

/// Without `ev` neither estimate is given; without `tv` alone the EV-based
/// one still is (unless flash fired) and the Tv-based one is not.
pub proof fn lemma_missing_inputs(e: Exposure, r: (Option<ApexValue>, Option<ApexValue>))
    requires
        e.wf(),
        e.are_estimates(r),
    ensures
        e.ev is None ==> r.0 is None && r.1 is None,
        (e.ev is Some && e.tv is None && !e.flash) ==> r.0 is Some && r.1 is None,
{
}

/// An exposure built from its required fields alone has neither estimate.
pub proof fn lemma_bare_exposure_has_no_estimate(
    speed: Fraction,
    iso: i32,
    r: (Option<ApexValue>, Option<ApexValue>),
)
    requires
        speed.small(),
        speed.num > 0,
        iso > 0,
        (Exposure { speed, iso, ev: None, tv: None, aperture: None, flash: false }).are_estimates(r),
    ensures
        r.0 is None,
        r.1 is None,
{
}

} // verus!
