//! Version bookkeeping across upgrades of the service.

use vstd::prelude::*;

verus! {

/// The lifecycle record as a mathematical value.
pub struct LifecycleState {
    pub stable_memory_version: u16,
    pub version_major: u16,
    pub version_minor: u16,
    pub version_patch: u16,
    pub last_upgraded: u64,
    pub ic_canister_version: u64,
}

/// Version of the code and of the stable memory layout, and when and under
/// which system version the service was last upgraded.
#[derive(Clone, Copy, Debug)]
pub struct CanisterLifecycle {
    stable_memory_version: u16,
    version_major: u16,
    version_minor: u16,
    version_patch: u16,
    last_upgraded: u64,
    ic_canister_version: u64,
}

impl View for CanisterLifecycle {
    type V = LifecycleState;

    closed spec fn view(&self) -> LifecycleState {
        LifecycleState {
            stable_memory_version: self.stable_memory_version,
            version_major: self.version_major,
            version_minor: self.version_minor,
            version_patch: self.version_patch,
            last_upgraded: self.last_upgraded,
            ic_canister_version: self.ic_canister_version,
        }
    }
}

impl Default for CanisterLifecycle {
    fn default() -> (lifecycle: CanisterLifecycle)
        ensures
            lifecycle@ == LifecycleState::init(0, 0),
    {
        canister_lifecycle_init(0, 0)
    }
}

/// The text of one decimal digit.
pub open spec fn digit_text(d: nat) -> Seq<char> {
    if d == 0 {
        "0"@
    } else if d == 1 {
        "1"@
    } else if d == 2 {
        "2"@
    } else if d == 3 {
        "3"@
    } else if d == 4 {
        "4"@
    } else if d == 5 {
        "5"@
    } else if d == 6 {
        "6"@
    } else if d == 7 {
        "7"@
    } else if d == 8 {
        "8"@
    } else {
        "9"@
    }
}

/// The decimal text of a number, without leading zeros.
pub open spec fn decimal_text(n: nat) -> Seq<char>
    decreases n,
{
    if n < 10 {
        digit_text(n)
    } else {
        decimal_text(n / 10) + digit_text(n % 10)
    }
}

impl LifecycleState {
    /// The record of a service set up at time `now` under system version
    /// `ic_version`.
    pub open spec fn init(now: u64, ic_version: u64) -> LifecycleState {
        LifecycleState {
            stable_memory_version: 0,
            version_major: 0,
            version_minor: 0,
            version_patch: 0,
            last_upgraded: now,
            ic_canister_version: ic_version,
        }
    }

    /// Whether the counters that an upgrade raises have room to be raised.
    pub open spec fn upgrade_fits(
        self,
        stable_memory_bump: bool,
        major_bump: bool,
        minor_bump: bool,
    ) -> bool {
        &&& self.version_patch < u16::MAX
        &&& stable_memory_bump ==> self.stable_memory_version < u16::MAX
        &&& minor_bump ==> self.version_minor < u16::MAX
        &&& major_bump ==> self.version_major < u16::MAX
    }

    /// The record after an upgrade. A major bump resets minor and patch, a
    /// minor bump resets patch, and without either the patch number goes up
    /// by one.
    pub open spec fn upgraded(
        self,
        now: u64,
        ic_version: u64,
        stable_memory_bump: bool,
        major_bump: bool,
        minor_bump: bool,
    ) -> LifecycleState {
        LifecycleState {
            stable_memory_version: if stable_memory_bump {
                (self.stable_memory_version + 1) as u16
            } else {
                self.stable_memory_version
            },
            version_major: if major_bump {
                (self.version_major + 1) as u16
            } else {
                self.version_major
            },
            version_minor: if major_bump {
                0
            } else if minor_bump {
                (self.version_minor + 1) as u16
            } else {
                self.version_minor
            },
            version_patch: if major_bump || minor_bump {
                0
            } else {
                (self.version_patch + 1) as u16
            },
            last_upgraded: now,
            ic_canister_version: ic_version,
        }
    }

    /// The record as text: `v`, the three version numbers with dots between
    /// them, `,ic_v` and the system version, `,mem_v` and the memory
    /// version, a comma, and the time of the last upgrade as whole seconds,
    /// a dot, and the nanoseconds past them.
    pub open spec fn text(self) -> Seq<char> {
        "v"@ + decimal_text(self.version_major as nat) + "."@ + decimal_text(
            self.version_minor as nat,
        ) + "."@ + decimal_text(self.version_patch as nat) + ",ic_v"@ + decimal_text(
            self.ic_canister_version as nat,
        ) + ",mem_v"@ + decimal_text(self.stable_memory_version as nat) + ","@ + decimal_text(
            (self.last_upgraded / 1000000000) as nat,
        ) + "."@ + decimal_text((self.last_upgraded % 1000000000) as nat)
    }
}

/// The text of one decimal digit.
fn digit_str(d: u64) -> (s: &'static str)
    requires
        d < 10,
    ensures
        s@ == digit_text(d as nat),
{
    if d == 0 {
        "0"
    } else if d == 1 {
        "1"
    } else if d == 2 {
        "2"
    } else if d == 3 {
        "3"
    } else if d == 4 {
        "4"
    } else if d == 5 {
        "5"
    } else if d == 6 {
        "6"
    } else if d == 7 {
        "7"
    } else if d == 8 {
        "8"
    } else {
        "9"
    }
}

/// Appends the decimal text of `n` to `out`.
fn push_decimal(out: &mut String, n: u64)
    ensures
        final(out)@ == old(out)@ + decimal_text(n as nat),
    decreases n,
{
    if n >= 10 {
        push_decimal(out, n / 10);
    }
    out.append(digit_str(n % 10));
    proof {
        if n >= 10 {
            assert(old(out)@ + decimal_text((n / 10) as nat) + digit_text((n % 10) as nat) =~= old(
                out,
            )@ + (decimal_text((n / 10) as nat) + digit_text((n % 10) as nat)));
        }
    }
}

impl CanisterLifecycle {
    /// Rebuilds the record from its stored fields.
    pub fn from_parts(
        stable_memory_version: u16,
        version_major: u16,
        version_minor: u16,
        version_patch: u16,
        last_upgraded: u64,
        ic_canister_version: u64,
    ) -> (lifecycle: CanisterLifecycle)
        ensures
            lifecycle@ == (LifecycleState {
                stable_memory_version,
                version_major,
                version_minor,
                version_patch,
                last_upgraded,
                ic_canister_version,
            }),
    {
        CanisterLifecycle {
            stable_memory_version,
            version_major,
            version_minor,
            version_patch,
            last_upgraded,
            ic_canister_version,
        }
    }

    pub fn stable_memory_version(&self) -> (r: u16)
        ensures
            r == self@.stable_memory_version,
    {
        self.stable_memory_version
    }

    pub fn version_major(&self) -> (r: u16)
        ensures
            r == self@.version_major,
    {
        self.version_major
    }

    pub fn version_minor(&self) -> (r: u16)
        ensures
            r == self@.version_minor,
    {
        self.version_minor
    }

    pub fn version_patch(&self) -> (r: u16)
        ensures
            r == self@.version_patch,
    {
        self.version_patch
    }

    pub fn last_upgraded(&self) -> (r: u64)
        ensures
            r == self@.last_upgraded,
    {
        self.last_upgraded
    }

    pub fn ic_canister_version(&self) -> (r: u64)
        ensures
            r == self@.ic_canister_version,
    {
        self.ic_canister_version
    }

    /// Whether the counters that an upgrade raises have room to be raised.
    pub fn upgrade_fits(&self, stable_memory_bump: bool, major_bump: bool, minor_bump: bool) -> (r:
        bool)
        ensures
            r == self@.upgrade_fits(stable_memory_bump, major_bump, minor_bump),
    {
        self.version_patch < u16::MAX && (!stable_memory_bump || self.stable_memory_version
            < u16::MAX) && (!minor_bump || self.version_minor < u16::MAX) && (!major_bump
            || self.version_major < u16::MAX)
    }

    /// The record as text, such as `v0.1.15,ic_v24,mem_v3,1700000000.5`.
    pub fn to_text(&self) -> (r: String)
        ensures
            r@ == self@.text(),
    {
        let mut out = String::from_str("v");
        push_decimal(&mut out, self.version_major as u64);
        out.append(".");
        push_decimal(&mut out, self.version_minor as u64);
        out.append(".");
        push_decimal(&mut out, self.version_patch as u64);
        out.append(",ic_v");
        push_decimal(&mut out, self.ic_canister_version);
        out.append(",mem_v");
        push_decimal(&mut out, self.stable_memory_version as u64);
        out.append(",");
        push_decimal(&mut out, self.last_upgraded / 1000000000);
        out.append(".");
        push_decimal(&mut out, self.last_upgraded % 1000000000);
        out
    }
}

/// The record of a service set up at time `now` under system version
/// `ic_version`: every version number is zero.
pub fn canister_lifecycle_init(now: u64, ic_version: u64) -> (lifecycle: CanisterLifecycle)
    ensures
        lifecycle@ == LifecycleState::init(now, ic_version),
{
    CanisterLifecycle {
        stable_memory_version: 0,
        version_major: 0,
        version_minor: 0,
        version_patch: 0,
        last_upgraded: now,
        ic_canister_version: ic_version,
    }
}

/// Records an upgrade made at time `now` under system version `ic_version`.
/// The patch number goes up by one; a minor bump raises the minor number
/// and resets the patch number; a major bump raises the major number and
/// resets both. The memory version goes up by one if asked.
pub fn lifecycle_on_upgrade(
    lifecycle: &mut CanisterLifecycle,
    now: u64,
    ic_version: u64,
    stable_memory_bump: bool,
    major_bump: bool,
    minor_bump: bool,
)
    requires
        old(lifecycle)@.upgrade_fits(stable_memory_bump, major_bump, minor_bump),
    ensures
        final(lifecycle)@ == old(lifecycle)@.upgraded(
            now,
            ic_version,
            stable_memory_bump,
            major_bump,
            minor_bump,
        ),
{
    if stable_memory_bump {
        lifecycle.stable_memory_version = lifecycle.stable_memory_version + 1;
    }
    lifecycle.version_patch = lifecycle.version_patch + 1;
    if minor_bump {
        lifecycle.version_minor = lifecycle.version_minor + 1;
        lifecycle.version_patch = 0;
    }
    if major_bump {
        lifecycle.version_major = lifecycle.version_major + 1;
        lifecycle.version_minor = 0;
        lifecycle.version_patch = 0;
    }
    lifecycle.last_upgraded = now;
    lifecycle.ic_canister_version = ic_version;
}

/// The lifecycle record.
pub fn get_version(lifecycle: &CanisterLifecycle) -> (r: CanisterLifecycle)
    ensures
        r@ == lifecycle@,
{
    *lifecycle
}

/// The lifecycle record as text.
pub fn get_version_text(lifecycle: &CanisterLifecycle) -> (r: String)
    ensures
        r@ == lifecycle@.text(),
{
    lifecycle.to_text()
}

} // verus!
