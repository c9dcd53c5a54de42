//! The abstract resource policy and its local validation.

use vstd::prelude::*;
use crate::error::PolicyError;

verus! {

/// Relative share weight; the init system accepts 1 to 10000.
pub type Weight = u16;

/// Smallest weight the init system accepts.
pub const WEIGHT_MIN: u64 = 1;

/// Largest weight the init system accepts.
pub const WEIGHT_MAX: u64 = 10000;

/// A declarative resource policy. Every optional field that is absent is
/// omitted from the translated property set — omission means "leave the
/// current or inherited value untouched", which differs from setting zero.
#[derive(Clone, Debug, PartialEq, Eq)]
pub struct Policy {
    /// Human-readable label; not a protocol identifier.
    pub name: String,
    /// Relative CPU share weight, 1 to 10000.
    pub cpu_weight: Option<Weight>,
    /// CPU indices the unit may run on.
    pub allowed_cpus: Option<Vec<u64>>,
    /// Memory protection floor in bytes (not an enforced limit).
    pub memory_min: Option<u64>,
    /// Weaker memory protection floor in bytes.
    pub memory_low: Option<u64>,
    /// Soft memory ceiling in bytes.
    pub memory_high: Option<u64>,
    /// Hard memory ceiling in bytes.
    pub memory_max: Option<u64>,
    /// Swap ceiling in bytes.
    pub memory_swap_max: Option<u64>,
    /// Zswap ceiling in bytes.
    pub memory_zswap_max: Option<u64>,
    /// Relative IO share weight, 1 to 10000.
    pub io_weight: Option<u64>,
    /// Per-device IO weight override: device identifier and weight.
    pub io_device_weight: Option<(String, u64)>,
    /// IO bandwidth ceiling.
    pub io_max: Option<u64>,
    /// Maximum number of concurrent tasks; zero is reserved by the protocol.
    pub task_max: Option<u64>,
}

/// Mathematical image of a [`Policy`].
pub struct PolicyView {
    pub name: Seq<char>,
    pub cpu_weight: Option<Weight>,
    pub allowed_cpus: Option<Seq<u64>>,
    pub memory_min: Option<u64>,
    pub memory_low: Option<u64>,
    pub memory_high: Option<u64>,
    pub memory_max: Option<u64>,
    pub memory_swap_max: Option<u64>,
    pub memory_zswap_max: Option<u64>,
    pub io_weight: Option<u64>,
    pub io_device_weight: Option<(Seq<char>, u64)>,
    pub io_max: Option<u64>,
    pub task_max: Option<u64>,
}

impl View for Policy {
    type V = PolicyView;

    open spec fn view(&self) -> PolicyView {
        PolicyView {
            name: self.name@,
            cpu_weight: self.cpu_weight,
            allowed_cpus: match self.allowed_cpus {
                Some(v) => Some(v@),
                None => None,
            },
            memory_min: self.memory_min,
            memory_low: self.memory_low,
            memory_high: self.memory_high,
            memory_max: self.memory_max,
            memory_swap_max: self.memory_swap_max,
            memory_zswap_max: self.memory_zswap_max,
            io_weight: self.io_weight,
            io_device_weight: match self.io_device_weight {
                Some(dw) => Some((dw.0@, dw.1)),
                None => None,
            },
            io_max: self.io_max,
            task_max: self.task_max,
        }
    }
}

/// The first validation error a policy carries, if any, in field order.
pub open spec fn spec_policy_error(p: PolicyView) -> Option<PolicyError> {
    if p.cpu_weight matches Some(w) && !(WEIGHT_MIN <= w <= WEIGHT_MAX) {
        Some(PolicyError::CpuWeightOutOfRange)
    } else if p.io_weight matches Some(w) && !(WEIGHT_MIN <= w <= WEIGHT_MAX) {
        Some(PolicyError::IoWeightOutOfRange)
    } else if p.io_device_weight matches Some(dw) && !(WEIGHT_MIN <= dw.1 <= WEIGHT_MAX) {
        Some(PolicyError::IoDeviceWeightOutOfRange)
    } else if p.task_max matches Some(t) && t == 0 {
        Some(PolicyError::TaskMaxZero)
    } else {
        None
    }
}

/// A policy the init system will not reject for its values.
pub open spec fn valid_policy(p: PolicyView) -> bool {
    spec_policy_error(p) is None
}

impl Policy {
    /// A policy with the given label and every optional field absent.
    pub fn empty(name: String) -> (r: Policy)
        ensures
            r@ == (PolicyView {
                name: name@,
                cpu_weight: None,
                allowed_cpus: None,
                memory_min: None,
                memory_low: None,
                memory_high: None,
                memory_max: None,
                memory_swap_max: None,
                memory_zswap_max: None,
                io_weight: None,
                io_device_weight: None,
                io_max: None,
                task_max: None,
            }),
    {
        Policy {
            name,
            cpu_weight: None,
            allowed_cpus: None,
            memory_min: None,
            memory_low: None,
            memory_high: None,
            memory_max: None,
            memory_swap_max: None,
            memory_zswap_max: None,
            io_weight: None,
            io_device_weight: None,
            io_max: None,
            task_max: None,
        }
    }

    /// Check the ranges the init system enforces, before any remote call:
    /// weights must lie in 1 to 10000, and a task limit of zero is refused
    /// because the protocol reserves zero for "none".
    pub fn validate(&self) -> (r: Result<(), PolicyError>)
        ensures
            match r {
                Ok(()) => spec_policy_error(self@) is None,
                Err(e) => spec_policy_error(self@) == Some(e),
            },
    {
        if let Some(w) = self.cpu_weight {
            if !(1 <= w && w as u64 <= 10000) {
                return Err(PolicyError::CpuWeightOutOfRange);
            }
        }
        if let Some(w) = self.io_weight {
            if !(1 <= w && w <= 10000) {
                return Err(PolicyError::IoWeightOutOfRange);
            }
        }
        if let Some((_, w)) = &self.io_device_weight {
            if !(1 <= *w && *w <= 10000) {
                return Err(PolicyError::IoDeviceWeightOutOfRange);
            }
        }
        if let Some(t) = self.task_max {
            if t == 0 {
                return Err(PolicyError::TaskMaxZero);
            }
        }
        Ok(())
    }
}

} // verus!
