//! The parameter and meter values shared between the audio processor and the edit
//! controller. Each value is kept as the bit pattern of an `f64`.
use vstd::prelude::*;
use crate::controller::DEFAULT_GAIN_NORMALIZED_BITS;
use crate::f64_bits::{clamp_unit, spec_clamp_unit, in_unit_or_nan};

verus! {

/// Bit pattern of `-120.0`, the level every meter reports (in dBFS) before any audio
/// has been processed.
pub const SILENCE_DB_BITS: u64 = 0xc05e_0000_0000_0000;

/// The values held by a [`SharedParams`].
pub struct SharedParamsView {
    /// Normalized gain, always clamped into `[0, 1]`.
    pub gain: u64,
    pub peak_l_db: u64,
    pub peak_r_db: u64,
    pub rms_l_db: u64,
    pub rms_r_db: u64,
}

impl SharedParamsView {
    /// The values after the gain is set to `norm`: it is stored clamped into `[0, 1]`.
    pub open spec fn with_gain(self, norm: u64) -> SharedParamsView {
        SharedParamsView { gain: spec_clamp_unit(norm), ..self }
    }

    pub open spec fn with_peak_l_db(self, db: u64) -> SharedParamsView {
        SharedParamsView { peak_l_db: db, ..self }
    }

    pub open spec fn with_peak_r_db(self, db: u64) -> SharedParamsView {
        SharedParamsView { peak_r_db: db, ..self }
    }

    pub open spec fn with_rms_l_db(self, db: u64) -> SharedParamsView {
        SharedParamsView { rms_l_db: db, ..self }
    }

    pub open spec fn with_rms_r_db(self, db: u64) -> SharedParamsView {
        SharedParamsView { rms_r_db: db, ..self }
    }
}

/// The values a new store holds: the default gain, every meter at `-120.0` dBFS.
pub open spec fn initial_shared() -> SharedParamsView {
    SharedParamsView {
        gain: DEFAULT_GAIN_NORMALIZED_BITS,
        peak_l_db: SILENCE_DB_BITS,
        peak_r_db: SILENCE_DB_BITS,
        rms_l_db: SILENCE_DB_BITS,
        rms_r_db: SILENCE_DB_BITS,
    }
}

/// Normalized gain and peak / RMS levels (dBFS) of the left and right channels.
pub struct SharedParams {
    gain_bits: u64,
    peak_l_db_bits: u64,
    peak_r_db_bits: u64,
    rms_l_db_bits: u64,
    rms_r_db_bits: u64,
}

impl View for SharedParams {
    type V = SharedParamsView;

    closed spec fn view(&self) -> SharedParamsView {
        SharedParamsView {
            gain: self.gain_bits,
            peak_l_db: self.peak_l_db_bits,
            peak_r_db: self.peak_r_db_bits,
            rms_l_db: self.rms_l_db_bits,
            rms_r_db: self.rms_r_db_bits,
        }
    }
}

impl SharedParams {
    /// The stored gain never lies outside the unit interval.
    #[verifier::type_invariant]
    spec fn gain_clamped(self) -> bool {
        in_unit_or_nan(self.gain_bits)
    }

    /// The gain at its default, 0 dB ([`DEFAULT_GAIN_NORMALIZED_BITS`]), every meter at
    /// `-120.0` dBFS.
    pub fn new() -> (s: Self)
        ensures
            s@ == initial_shared(),
    {
        SharedParams {
            gain_bits: DEFAULT_GAIN_NORMALIZED_BITS,
            peak_l_db_bits: SILENCE_DB_BITS,
            peak_r_db_bits: SILENCE_DB_BITS,
            rms_l_db_bits: SILENCE_DB_BITS,
            rms_r_db_bits: SILENCE_DB_BITS,
        }
    }

    /// Stores the normalized gain clamped into `[0, 1]`.
    pub fn set_gain_normalized(&mut self, norm: u64)
        ensures
            final(self)@ == old(self)@.with_gain(norm),
    {
        self.gain_bits = clamp_unit(norm);
    }

    /// The stored normalized gain.
    pub fn gain_normalized(&self) -> (r: u64)
        ensures
            r == self@.gain,
            in_unit_or_nan(r),
    {
        proof {
            use_type_invariant(self);
        }
        self.gain_bits
    }

    pub fn set_peak_l_db(&mut self, db: u64)
        ensures
            final(self)@ == old(self)@.with_peak_l_db(db),
    {
        proof {
            use_type_invariant(&*self);
        }
        self.peak_l_db_bits = db;
    }

    pub fn set_peak_r_db(&mut self, db: u64)
        ensures
            final(self)@ == old(self)@.with_peak_r_db(db),
    {
        proof {
            use_type_invariant(&*self);
        }
        self.peak_r_db_bits = db;
    }

    pub fn set_rms_l_db(&mut self, db: u64)
        ensures
            final(self)@ == old(self)@.with_rms_l_db(db),
    {
        proof {
            use_type_invariant(&*self);
        }
        self.rms_l_db_bits = db;
    }

    pub fn set_rms_r_db(&mut self, db: u64)
        ensures
            final(self)@ == old(self)@.with_rms_r_db(db),
    {
        proof {
            use_type_invariant(&*self);
        }
        self.rms_r_db_bits = db;
    }

    pub fn peak_l_db(&self) -> (r: u64)
        ensures
            r == self@.peak_l_db,
    {
        self.peak_l_db_bits
    }

    pub fn peak_r_db(&self) -> (r: u64)
        ensures
            r == self@.peak_r_db,
    {
        self.peak_r_db_bits
    }

    pub fn rms_l_db(&self) -> (r: u64)
        ensures
            r == self@.rms_l_db,
    {
        self.rms_l_db_bits
    }

    pub fn rms_r_db(&self) -> (r: u64)
        ensures
            r == self@.rms_r_db,
    {
        self.rms_r_db_bits
    }
}

impl Default for SharedParams {
    /// Every value `0.0`.
    fn default() -> (s: Self)
        ensures
            s@ == (SharedParamsView { gain: 0, peak_l_db: 0, peak_r_db: 0, rms_l_db: 0, rms_r_db: 0 }),
    {
        SharedParams { gain_bits: 0, peak_l_db_bits: 0, peak_r_db_bits: 0, rms_l_db_bits: 0, rms_r_db_bits: 0 }
    }
}

/// A read of the gain gives back the last stored gain, clamped into `[0, 1]`; a read of
/// a meter gives back the last level stored to that meter.
pub proof fn law_read_after_write(v: SharedParamsView, norm: u64, db: u64)
    ensures
        v.with_gain(norm).gain == spec_clamp_unit(norm),
        v.with_peak_l_db(db).peak_l_db == db,
        v.with_peak_r_db(db).peak_r_db == db,
        v.with_rms_l_db(db).rms_l_db == db,
        v.with_rms_r_db(db).rms_r_db == db,
{
}

/// Storing the gain leaves every meter as it was, and storing one meter leaves the gain
/// and the other meters as they were.
pub proof fn law_writes_are_independent(v: SharedParamsView, norm: u64, db: u64)
    ensures
        v.with_gain(norm).peak_l_db == v.peak_l_db,
        v.with_gain(norm).peak_r_db == v.peak_r_db,
        v.with_gain(norm).rms_l_db == v.rms_l_db,
        v.with_gain(norm).rms_r_db == v.rms_r_db,
        v.with_peak_l_db(db) == (SharedParamsView { peak_l_db: db, ..v }),
        v.with_peak_r_db(db) == (SharedParamsView { peak_r_db: db, ..v }),
        v.with_rms_l_db(db) == (SharedParamsView { rms_l_db: db, ..v }),
        v.with_rms_r_db(db) == (SharedParamsView { rms_r_db: db, ..v }),
{
}

/// Of two stores to the same value, the later one wins; stores to different values
/// commute.
pub proof fn law_last_write_wins(v: SharedParamsView, a: u64, b: u64)
    ensures
        v.with_gain(a).with_gain(b) == v.with_gain(b),
        v.with_peak_l_db(a).with_peak_l_db(b) == v.with_peak_l_db(b),
        v.with_peak_r_db(a).with_peak_r_db(b) == v.with_peak_r_db(b),
        v.with_rms_l_db(a).with_rms_l_db(b) == v.with_rms_l_db(b),
        v.with_rms_r_db(a).with_rms_r_db(b) == v.with_rms_r_db(b),
        v.with_gain(a).with_peak_l_db(b) == v.with_peak_l_db(b).with_gain(a),
        v.with_peak_l_db(a).with_peak_r_db(b) == v.with_peak_r_db(b).with_peak_l_db(a),
        v.with_rms_l_db(a).with_rms_r_db(b) == v.with_rms_r_db(b).with_rms_l_db(a),
{
}

} // verus!
