//! What the menu concludes about the machine it runs on, from facts that
//! its caller gathers.

use crate::text::text_eq;
use vstd::prelude::*;
use vstd::string::*;

verus! {

/// Whether the facts say that the process runs inside a Flatpak sandbox:
/// the variable `FLATPAK_ID` is set, or the file `/.flatpak-info` exists,
/// or the variable `container` holds the text "flatpak".
pub open spec fn spec_is_flatpak(flatpak_id_set: bool, info_file_exists: bool, container: Option<
    Seq<char>,
>) -> bool {
    flatpak_id_set || info_file_exists || container == Some("flatpak"@)
}

/// Whether the process runs inside a Flatpak sandbox, given whether
/// `FLATPAK_ID` is set, whether `/.flatpak-info` exists and what the
/// variable `container` holds.
pub fn is_flatpak(flatpak_id_set: bool, info_file_exists: bool, container: Option<&str>) -> (inside:
    bool)
    ensures
        inside == spec_is_flatpak(
            flatpak_id_set,
            info_file_exists,
            match container {
                Some(c) => Some(c@),
                None => None,
            },
        ),
{
    flatpak_id_set || info_file_exists || match container {
        Some(c) => text_eq(c, "flatpak"),
        None => false,
    }
}

/// A running process: its id and the canonical path of its executable,
/// where that is known.
#[derive(Debug, PartialEq, Eq)]
pub struct ProcessInfo {
    pub pid: u32,
    pub exe: Option<String>,
}

/// Whether `p` is another process that runs the executable `exe`.
pub open spec fn is_other_instance(p: ProcessInfo, own_pid: u32, exe: Seq<char>) -> bool {
    p.pid != own_pid && p.exe.deep_view() == Some(exe)
}

/// Whether some process other than the own one runs the own executable.
/// Without a known path of the own executable none does.
pub open spec fn spec_is_running(
    processes: Seq<ProcessInfo>,
    own_pid: u32,
    own_exe: Option<Seq<char>>,
) -> bool {
    match own_exe {
        Some(exe) => exists|i: int|
            0 <= i < processes.len() && is_other_instance(#[trigger] processes[i], own_pid, exe),
        None => false,
    }
}

/// Whether another instance of the program is running: a process with
/// another id whose executable is the own one.
pub fn is_running(processes: &Vec<ProcessInfo>, own_pid: u32, own_exe: Option<&str>) -> (running:
    bool)
    ensures
        running == spec_is_running(
            processes@,
            own_pid,
            match own_exe {
                Some(e) => Some(e@),
                None => None,
            },
        ),
{
    match own_exe {
        Some(exe) => {
            let mut i: usize = 0;
            while i < processes.len()
                invariant
                    i <= processes.len(),
                    own_exe == Some(exe),
                    forall|k: int|
                        0 <= k < i ==> !is_other_instance(#[trigger] processes[k], own_pid, exe@),
                decreases processes.len() - i,
            {
                let p = &processes[i];
                if p.pid != own_pid {
                    match &p.exe {
                        Some(path) => {
                            if text_eq(path.as_str(), exe) {
                                assert(is_other_instance(processes[i as int], own_pid, exe@));
                                return true;
                            }
                        },
                        None => {},
                    }
                }
                i = i + 1;
            }
            false
        },
        None => false,
    }
}

} // verus!
