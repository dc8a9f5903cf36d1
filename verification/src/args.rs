use vstd::prelude::*;

verus! {

/// The three verbosity levels the operator can pick.
#[derive(Clone, Copy, Debug, PartialEq, Eq, Structural)]
pub enum Verbosity {
    /// Ordinary operation: informational messages only.
    Quiet,
    /// Minimal detail while remapping.
    Debug,
    /// Complete detail, including ignored transitions.
    Trace,
}

/// The configuration surface of the remapper: a device path, a forwarding
/// toggle, and a three-level verbosity selector. None of it affects the
/// transition policy; the selector only picks what is logged, and the
/// toggle only picks the forwarding branch of the batcher.
#[derive(Debug)]
pub struct Config {
    /// The path to the device to remap, e.g. /dev/input/event6.
    pub device: String,
    /// When enabled, all events the policy does not remap are forwarded
    /// unchanged.
    pub forward: bool,
    /// The amount of detail printed as debug information: 0, 1 or 2.
    pub print_debug: u8,
}

impl Config {
    /// The verbosity level the selector picks, or `None` for a value
    /// outside 0..=2 — a configuration error, reported before any device
    /// is touched.
    pub fn verbosity(&self) -> (v: Option<Verbosity>)
        ensures
            self.print_debug == 0 ==> v == Some(Verbosity::Quiet),
            self.print_debug == 1 ==> v == Some(Verbosity::Debug),
            self.print_debug == 2 ==> v == Some(Verbosity::Trace),
            self.print_debug > 2 ==> v is None,
    {
        if self.print_debug == 0 {
            Some(Verbosity::Quiet)
        } else if self.print_debug == 1 {
            Some(Verbosity::Debug)
        } else if self.print_debug == 2 {
            Some(Verbosity::Trace)
        } else {
            None
        }
    }
}

} // verus!
