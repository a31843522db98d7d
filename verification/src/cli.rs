use vstd::prelude::*;

verus! {

/// What one run of the program does, chosen from its command-line flags.
#[derive(Debug, Clone, Copy, PartialEq, Eq, Structural)]
pub enum RunMode {
    /// List every IOReport channel name and exit.
    DumpChannels,
    /// List every SMC key and exit.
    DumpSmc,
    /// Stream samples to standard output as JSON.
    Json,
    /// Show the interactive terminal interface.
    Tui,
}

/// The mode a run selects: `--dump` wins over `--dump-smc`, which wins
/// over `--json`; with none of them the terminal interface runs.
pub open spec fn spec_select_mode(dump: bool, dump_smc: bool, json: bool) -> RunMode {
    if dump {
        RunMode::DumpChannels
    } else if dump_smc {
        RunMode::DumpSmc
    } else if json {
        RunMode::Json
    } else {
        RunMode::Tui
    }
}

/// Chooses what a run does from the `--dump`, `--dump-smc` and `--json` flags.
pub fn select_mode(dump: bool, dump_smc: bool, json: bool) -> (mode: RunMode)
    ensures
        mode == spec_select_mode(dump, dump_smc, json),
        dump ==> mode == RunMode::DumpChannels,
        !dump && dump_smc ==> mode == RunMode::DumpSmc,
        !dump && !dump_smc && json ==> mode == RunMode::Json,
        !dump && !dump_smc && !json ==> mode == RunMode::Tui,
{
    if dump {
        RunMode::DumpChannels
    } else if dump_smc {
        RunMode::DumpSmc
    } else if json {
        RunMode::Json
    } else {
        RunMode::Tui
    }
}

} // verus!
