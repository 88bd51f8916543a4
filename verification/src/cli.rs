//! Decisions of the flight computer's console commands.

use vstd::prelude::*;
use crate::w25qxxxjv::driver::Wusize;

verus! {

/// What the `erase` command erases.
#[derive(Clone, Copy, Debug, PartialEq, Eq, Structural)]
pub enum EraseTarget {
    /// The whole chip; the flight log is reset afterwards.
    Chip,
    /// The sector holding this address.
    Sector(Wusize),
    /// Nothing.
    Nothing,
}

/// How the `erase` command proceeds.
#[derive(Clone, Copy, Debug, PartialEq, Eq, Structural)]
pub struct ErasePlan {
    pub target: EraseTarget,
    /// The command stops here, reporting that nothing was selected (neither
    /// an erase nor a title was given).
    pub nothing_selected: bool,
}

/// Plans the `erase` command from its arguments: `--all` erases the chip and
/// wins over `--sector`; with neither, only a title can be written, and if
/// there is none the command reports that nothing was selected.
pub fn plan_erase(sector: Option<Wusize>, all: bool, has_title: bool) -> (r: ErasePlan)
    ensures
        all ==> r.target == EraseTarget::Chip,
        !all ==> r.target == (match sector {
            Some(s) => EraseTarget::Sector(s),
            None => EraseTarget::Nothing,
        }),
        r.nothing_selected <==> (!all && sector is None && !has_title),
{
    if all {
        ErasePlan { target: EraseTarget::Chip, nothing_selected: false }
    } else if let Some(s) = sector {
        ErasePlan { target: EraseTarget::Sector(s), nothing_selected: false }
    } else if !has_title {
        ErasePlan { target: EraseTarget::Nothing, nothing_selected: true }
    } else {
        ErasePlan { target: EraseTarget::Nothing, nothing_selected: false }
    }
}

/// Decides what a USB interrupt hands on to the console: when the device
/// poll reported activity and the serial read returned a positive byte
/// count (`read_count` is `None` when the read failed), that many bytes of
/// the read buffer; otherwise nothing.
pub fn usb_fs(polled: bool, read_count: Option<usize>) -> (r: Option<usize>)
    ensures
        r == (match read_count {
            Some(n) => if polled && n > 0 {
                Some(n)
            } else {
                None
            },
            None => None,
        }),
{
    if polled {
        match read_count {
            Some(count) if count > 0 => Some(count),
            _ => None,
        }
    } else {
        None
    }
}

} // verus!
