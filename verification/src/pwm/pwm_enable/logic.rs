//! The capability-typed PWM handle and its path and byte logic.
//!
//! A handle binds the path of one `pwm<N>_enable` control file to its pwm id.
//! The capability marker is part of the type: [`PwmEnable<PwmEnableReadOnly>`]
//! has only the read surface, [`PwmEnable<PwmEnableReadWrite>`] adds the write
//! surface, and the one legal transition is the consuming upgrade
//! [`PwmEnable::make_writable`]; there is no way back.

use crate::fan::configurations::AsusNbWmiFanMode;
use crate::pwm::pwm_enable::error::FanModeReadError;
use crate::pwm::pwm_enable::error::FanModeSetError;
use crate::pwm::pwm_enable::error::InputReadError;
use crate::pwm::pwm_enable::error::PwmEnableError;
use crate::pwm::pwm_enable::traits::PwmEnableState;
use crate::pwm::pwm_enable::traits::ReadConfig;
use crate::pwm::pwm_enable::traits::WriteConfig;
use crate::text::copy_range;
use crate::text::dec_of;
use crate::text::parse_dec_u16;
use crate::text::rfind_byte;
use crate::text::rfind_from;
use crate::text::u64_to_dec;
use std::marker::PhantomData;
use vstd::prelude::*;

verus! {

/// Capability marker: the handle was opened with write access.
pub struct PwmEnableReadWrite;

/// Capability marker: the handle is read-only.
pub struct PwmEnableReadOnly;

impl PwmEnableState for PwmEnableReadWrite {
    open spec fn spec_write_permission() -> bool {
        true
    }

    fn write_permission() -> bool {
        true
    }
}

impl PwmEnableState for PwmEnableReadOnly {
    open spec fn spec_write_permission() -> bool {
        false
    }

    fn write_permission() -> bool {
        false
    }
}

// ---------------------------------------------------------------------------
// Path derivation
// ---------------------------------------------------------------------------

/// Candidate control-file path for hwmon index `h`, relative to the hwmon
/// base directory: `hwmon<h>/pwm<p>_enable`.
pub open spec fn hwmon_candidate(hwmon_id: nat, pwm_id: nat) -> Seq<u8> {
    seq![0x68, 0x77, 0x6d, 0x6f, 0x6e] + dec_of(hwmon_id) + seq![0x2f, 0x70, 0x77, 0x6d] + dec_of(
        pwm_id,
    ) + seq![0x5f, 0x65, 0x6e, 0x61, 0x62, 0x6c, 0x65]
}

/// The sibling file `name` in the directory of `path`: everything up to and
/// including the last `/`, then `name`; a path without a directory part is
/// replaced whole.
pub open spec fn with_file_name(path: Seq<u8>, name: Seq<u8>) -> Seq<u8> {
    let cut = rfind_from(path, 0, path.len() as int, 0x2f) + 1;
    path.subrange(0, cut) + name
}

/// Name of the sibling label file: `fan<p>_label`.
pub open spec fn fan_label_name(pwm_id: nat) -> Seq<u8> {
    seq![0x66, 0x61, 0x6e] + dec_of(pwm_id) + seq![0x5f, 0x6c, 0x61, 0x62, 0x65, 0x6c]
}

/// Name of the sibling input (RPM) file: `fan<p>_input`.
pub open spec fn fan_input_name(pwm_id: nat) -> Seq<u8> {
    seq![0x66, 0x61, 0x6e] + dec_of(pwm_id) + seq![0x5f, 0x69, 0x6e, 0x70, 0x75, 0x74]
}

/// `h` is the hwmon index the probe selects: the first of the ten whose
/// candidate file exists.
pub open spec fn hwmon_found(probed: Seq<bool>, h: int) -> bool {
    &&& 0 <= h < 10
    &&& probed[h]
    &&& forall|g: int| 0 <= g < h ==> !probed[g]
}

/// Build the candidate path `hwmon<h>/pwm<p>_enable`, relative to the hwmon
/// base directory; the caller probes these for hwmon indices 0 through 9.
pub fn candidate_path(hwmon_id: u8, pwm_id: u8) -> (v: Vec<u8>)
    ensures
        v@ == hwmon_candidate(hwmon_id as nat, pwm_id as nat),
{
    let mut v: Vec<u8> = Vec::new();
    v.push(0x68);
    v.push(0x77);
    v.push(0x6d);
    v.push(0x6f);
    v.push(0x6e);
    let mut d = u64_to_dec(hwmon_id as u64);
    v.append(&mut d);
    v.push(0x2f);
    v.push(0x70);
    v.push(0x77);
    v.push(0x6d);
    let mut d2 = u64_to_dec(pwm_id as u64);
    v.append(&mut d2);
    v.push(0x5f);
    v.push(0x65);
    v.push(0x6e);
    v.push(0x61);
    v.push(0x62);
    v.push(0x6c);
    v.push(0x65);
    proof {
        assert(v@ =~= hwmon_candidate(hwmon_id as nat, pwm_id as nat));
    }
    v
}

// ---------------------------------------------------------------------------
// The handle
// ---------------------------------------------------------------------------

/// A handle to one `pwm<N>_enable` control file, carrying its capability in
/// the type parameter.
pub struct PwmEnable<T: PwmEnableState> {
    path: Vec<u8>,
    pwm_id: u8,
    _state: PhantomData<T>,
}

impl<T: PwmEnableState> PwmEnable<T> {
    /// Path of the control file this handle is bound to.
    pub closed spec fn spec_path(self) -> Seq<u8> {
        self.path@
    }

    /// The pwm id this handle controls.
    pub closed spec fn spec_pwm_id(self) -> u8 {
        self.pwm_id
    }

    /// Bind a handle to a control-file path and pwm id. Opens nothing: the
    /// caller opens the path with read access always, and with write access
    /// exactly when the capability `T` permits it, reporting a failure as
    /// `PwmEnableError::UnableToAccessHardware` with this pwm id.
    pub fn new(path: Vec<u8>, pwm_id: u8) -> (h: Self)
        ensures
            h.spec_path() == path@,
            h.spec_pwm_id() == pwm_id,
    {
        PwmEnable { path, pwm_id, _state: PhantomData }
    }

    pub fn get_pwm_id(&self) -> (r: u8)
        ensures
            r == self.spec_pwm_id(),
    {
        self.pwm_id
    }

    pub fn get_file_path(&self) -> (r: &Vec<u8>)
        ensures
            r@ == self.spec_path(),
    {
        &self.path
    }

    /// Select the control file for `pwm_id`: the candidate under the first
    /// hwmon index 0 through 9 that exists, where `probed[h]` says whether
    /// candidate `h` exists as the caller probed it. Absence across all ten
    /// indices means the id has no backing device at all.
    pub fn find_hwmon_path(pwm_id: u8, probed: &[bool]) -> (r: Result<Vec<u8>, PwmEnableError>)
        requires
            probed@.len() == 10,
        ensures
            match r {
                Ok(path) => (exists|h: int|
                    hwmon_found(probed@, h) && path@ == hwmon_candidate(
                        h as nat,
                        pwm_id as nat,
                    )),
                Err(e) => {
                    &&& forall|h: int| 0 <= h < 10 ==> !probed@[h]
                    &&& e == (PwmEnableError::UnsupportedHardware { pwm_id })
                },
            },
    {
        let mut h: usize = 0;
        while h < 10
            invariant
                h <= 10,
                probed@.len() == 10,
                forall|g: int| 0 <= g < h ==> !probed@[g],
            decreases 10 - h,
        {
            if probed[h] {
                let path = candidate_path(h as u8, pwm_id);
                proof {
                    assert(hwmon_found(probed@, h as int));
                }
                return Ok(path);
            }
            h = h + 1;
        }
        Err(PwmEnableError::UnsupportedHardware { pwm_id })
    }

    fn sibling_path(&self, name: Vec<u8>) -> (p: Vec<u8>)
        ensures
            p@ == with_file_name(self.spec_path(), name@),
    {
        let len = self.path.len();
        let cut = match rfind_byte(self.path.as_slice(), 0, len, 0x2f) {
            Some(i) => i + 1,
            None => 0,
        };
        let mut p = copy_range(self.path.as_slice(), 0, cut);
        let mut n = name;
        p.append(&mut n);
        p
    }

    /// Path of the sibling label file `fan<id>_label`, in the directory of
    /// the control file.
    pub fn label_path(&self) -> (p: Vec<u8>)
        ensures
            p@ == with_file_name(self.spec_path(), fan_label_name(self.spec_pwm_id() as nat)),
    {
        let mut name: Vec<u8> = Vec::new();
        name.push(0x66);
        name.push(0x61);
        name.push(0x6e);
        let mut d = u64_to_dec(self.pwm_id as u64);
        name.append(&mut d);
        name.push(0x5f);
        name.push(0x6c);
        name.push(0x61);
        name.push(0x62);
        name.push(0x65);
        name.push(0x6c);
        proof {
            assert(name@ =~= fan_label_name(self.spec_pwm_id() as nat));
        }
        self.sibling_path(name)
    }

    /// Path of the sibling input (RPM) file `fan<id>_input`, in the directory
    /// of the control file.
    pub fn input_path(&self) -> (p: Vec<u8>)
        ensures
            p@ == with_file_name(self.spec_path(), fan_input_name(self.spec_pwm_id() as nat)),
    {
        let mut name: Vec<u8> = Vec::new();
        name.push(0x66);
        name.push(0x61);
        name.push(0x6e);
        let mut d = u64_to_dec(self.pwm_id as u64);
        name.append(&mut d);
        name.push(0x5f);
        name.push(0x69);
        name.push(0x6e);
        name.push(0x70);
        name.push(0x75);
        name.push(0x74);
        proof {
            assert(name@ =~= fan_input_name(self.spec_pwm_id() as nat));
        }
        self.sibling_path(name)
    }
}

impl<T: PwmEnableState> ReadConfig for PwmEnable<T> {
    fn get_fan_mode(&self, byte: u8) -> Result<AsusNbWmiFanMode, FanModeReadError> {
        match AsusNbWmiFanMode::try_from(byte) {
            Ok(m) => Ok(m),
            Err(e) => Err(FanModeReadError::AsusNbWmiFanModeError { error: e }),
        }
    }

    fn get_label(&self, contents: &[u8]) -> Vec<u8> {
        let len = contents.len();
        let hi: usize = if len > 0 && contents[len - 1] == 0x0a {
            len - 1
        } else {
            len
        };
        copy_range(contents, 0, hi)
    }

    fn get_input(&self, contents: &[u8]) -> Result<u16, InputReadError> {
        let len = contents.len();
        let hi: usize = if len > 0 && contents[len - 1] == 0x0a {
            len - 1
        } else {
            len
        };
        match parse_dec_u16(contents, 0, hi) {
            Some(v) => Ok(v),
            None => Err(
                InputReadError::NonNumericInputValue { value: copy_range(contents, 0, hi) },
            ),
        }
    }
}

impl PwmEnable<PwmEnableReadOnly> {
    /// Consume this read-only handle and yield the read-write handle for the
    /// identical path. The caller reopens the path with write access first
    /// (reporting a failure as `PwmEnableError::IOError`); the old handle
    /// cannot be used afterwards.
    pub fn make_writable(self) -> (rw: PwmEnable<PwmEnableReadWrite>)
        ensures
            rw.spec_path() == self.spec_path(),
            rw.spec_pwm_id() == self.spec_pwm_id(),
    {
        PwmEnable { path: self.path, pwm_id: self.pwm_id, _state: PhantomData }
    }
}

impl WriteConfig for PwmEnable<PwmEnableReadWrite> {
    fn set_fan_mode(&self, mode: AsusNbWmiFanMode) -> u8 {
        mode.as_byte()
    }

    fn set_fan_mode_error(&self, mode: AsusNbWmiFanMode, raw_os_error: Option<i32>) -> (e:
        FanModeSetError) {
        match raw_os_error {
            None => FanModeSetError::UnknownError { error: None },
            Some(code) => {
                if code == 22 {
                    FanModeSetError::IllegalFanModeValue { value: mode }
                } else if code == 5 {
                    FanModeSetError::AcPowerRequired { error: Some(code) }
                } else {
                    FanModeSetError::UnknownError { error: Some(code) }
                }
            },
        }
    }
}

} // verus!
