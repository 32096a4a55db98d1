use vstd::prelude::*;
use crate::classify::{
    classify_exe, classify_gamesheet, exe_probe_state, gamesheet_probe_state, FileProbe,
};
use crate::err::TargetState;

verus! {

/// What the window shows: the state of each target, and the two lengths a
/// texture atlas is recognised by.
pub struct GDGlowPatchApp {
    pub exe_state: TargetState,
    pub gamesheet_state: TargetState,
    /// Length of the stock texture atlas.
    pub stock_gamesheet_len: u64,
    /// Length of the replacement texture atlas.
    pub patched_gamesheet_len: u64,
}

impl GDGlowPatchApp {
    /// A window that has not looked at the disk yet: both targets missing.
    pub fn new(stock_gamesheet_len: u64, patched_gamesheet_len: u64) -> (r: GDGlowPatchApp)
        ensures
            r.exe_state == TargetState::Missing,
            r.gamesheet_state == TargetState::Missing,
            r.stock_gamesheet_len == stock_gamesheet_len,
            r.patched_gamesheet_len == patched_gamesheet_len,
    {
        GDGlowPatchApp {
            exe_state: TargetState::Missing,
            gamesheet_state: TargetState::Missing,
            stock_gamesheet_len,
            patched_gamesheet_len,
        }
    }
}

/// Rebuilds both states from what was just found on disk; nothing of the
/// previous states is kept.
pub fn update_ui_states(app: &mut GDGlowPatchApp, exe: &FileProbe, gamesheet: &FileProbe)
    ensures
        final(app).exe_state == exe_probe_state(*exe),
        final(app).gamesheet_state == gamesheet_probe_state(
            *gamesheet,
            old(app).stock_gamesheet_len as int,
            old(app).patched_gamesheet_len as int,
        ),
        final(app).stock_gamesheet_len == old(app).stock_gamesheet_len,
        final(app).patched_gamesheet_len == old(app).patched_gamesheet_len,
{
    app.gamesheet_state = classify_gamesheet(gamesheet, app.stock_gamesheet_len, app.patched_gamesheet_len);
    app.exe_state = classify_exe(exe);
}

/// Which patch action the window offers for a target.
#[derive(Clone, Copy, Debug, PartialEq, Eq, Structural)]
pub enum PatchOffer {
    NotOffered,
    /// Patch a stock file.
    Patch,
    /// Patch a file that was not recognised.
    PatchAnyway,
}

/// The closing advice, read from the two targets' states together.
#[derive(Clone, Copy, Debug, PartialEq, Eq, Structural)]
pub enum Advice {
    /// A target is missing: the program is likely not in the game's directory.
    CheckDirectory,
    /// Both targets are patched.
    AllPatched,
    /// The texture atlas is patched, the executable is not.
    OnlyGamesheetPatched,
    /// The executable is patched, the texture atlas is not.
    OnlyExePatched,
    /// Nothing to add.
    Nothing,
}

/// The executable can be patched only when it is the stock one.
pub open spec fn exe_offer_of(s: TargetState) -> PatchOffer {
    if s == TargetState::Present { PatchOffer::Patch } else { PatchOffer::NotOffered }
}

/// The texture atlas can be patched when stock, and also when unrecognised.
pub open spec fn gamesheet_offer_of(s: TargetState) -> PatchOffer {
    match s {
        TargetState::Present => PatchOffer::Patch,
        TargetState::Invalid => PatchOffer::PatchAnyway,
        _ => PatchOffer::NotOffered,
    }
}

/// The decision table over the four flags "missing" and "patched" of each target.
pub open spec fn advice_of(exe: TargetState, sheet: TargetState) -> Advice {
    if exe == TargetState::Missing || sheet == TargetState::Missing {
        Advice::CheckDirectory
    } else if exe == TargetState::Patched && sheet == TargetState::Patched {
        Advice::AllPatched
    } else if sheet == TargetState::Patched {
        Advice::OnlyGamesheetPatched
    } else if exe == TargetState::Patched {
        Advice::OnlyExePatched
    } else {
        Advice::Nothing
    }
}

/// The action offered for the executable.
pub fn exe_offer(s: TargetState) -> (r: PatchOffer)
    ensures
        r == exe_offer_of(s),
{
    match s {
        TargetState::Present => PatchOffer::Patch,
        _ => PatchOffer::NotOffered,
    }
}

/// The action offered for the texture atlas.
pub fn gamesheet_offer(s: TargetState) -> (r: PatchOffer)
    ensures
        r == gamesheet_offer_of(s),
{
    match s {
        TargetState::Present => PatchOffer::Patch,
        TargetState::Invalid => PatchOffer::PatchAnyway,
        _ => PatchOffer::NotOffered,
    }
}

/// The advice for the two states.
pub fn advice(exe: TargetState, sheet: TargetState) -> (r: Advice)
    ensures
        r == advice_of(exe, sheet),
{
    let exe_missing = exe == TargetState::Missing;
    let exe_patched = exe == TargetState::Patched;
    let sheet_missing = sheet == TargetState::Missing;
    let sheet_patched = sheet == TargetState::Patched;
    if exe_missing || sheet_missing {
        Advice::CheckDirectory
    } else if exe_patched && sheet_patched {
        Advice::AllPatched
    } else if sheet_patched && !exe_patched && !exe_missing {
        Advice::OnlyGamesheetPatched
    } else if exe_patched && !sheet_patched && !sheet_missing {
        Advice::OnlyExePatched
    } else {
        Advice::Nothing
    }
}

/// Where the window looks for the game.
#[derive(Clone, Copy, Debug, PartialEq, Eq, Structural)]
pub enum DirectoryChoice {
    /// The working directory.
    Current,
    /// The platform's usual install directory.
    InstallGuess,
}

/// The working directory when it holds the executable; otherwise the usual
/// install directory when that is a directory; otherwise the working
/// directory again, so that the window can tell what is missing.
pub fn choose_directory(current_has_exe: bool, guess_is_dir: bool) -> (r: DirectoryChoice)
    ensures
        r == (if !current_has_exe && guess_is_dir { DirectoryChoice::InstallGuess } else { DirectoryChoice::Current }),
{
    if current_has_exe {
        DirectoryChoice::Current
    } else if guess_is_dir {
        DirectoryChoice::InstallGuess
    } else {
        DirectoryChoice::Current
    }
}

} // verus!
