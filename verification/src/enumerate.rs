use vstd::prelude::*;

verus! {

/// The style bit that marks a pop-up window in the window-style word.
pub const POPUP_STYLE_BIT: u32 = 0x80000000;

/// What the window walk should do after the title-length query.
#[derive(Debug, Clone, Copy, PartialEq, Eq)]
pub enum TitleAction {
    /// Pass this window over and continue the walk.
    Skip,
    /// Stop the walk altogether.
    Halt,
    /// Fetch and report this window's title, then continue.
    Fetch,
}

/// A window is considered for the title report only when it is currently
/// visible, its info query succeeded, and its style word does not mark it
/// a pop-up.
pub open spec fn considered(visible: bool, style: Option<u32>) -> bool {
    visible && match style {
        Some(s) => s & POPUP_STYLE_BIT != POPUP_STYLE_BIT,
        None => false,
    }
}

/// Decide `considered` from the visibility and info-query answers.
pub fn should_consider(visible: bool, style: Option<u32>) -> (r: bool)
    ensures
        r == considered(visible, style),
{
    if !visible {
        return false;
    }
    match style {
        Some(s) => s & POPUP_STYLE_BIT != POPUP_STYLE_BIT,
        None => false,
    }
}

/// The decision after the title-length query: a window with a non-zero
/// title length has its title fetched; a zero length with no error pending
/// is an empty title and is skipped; a zero length with an error pending
/// stops the walk (one legacy window class is known to answer this way,
/// but only after a preceding info query).
pub open spec fn title_decision(length: i32, error_pending: bool) -> TitleAction {
    if length != 0 {
        TitleAction::Fetch
    } else if !error_pending {
        TitleAction::Skip
    } else {
        TitleAction::Halt
    }
}

/// Decide `title_decision` from the length query and the error state.
pub fn title_length_decision(length: i32, error_pending: bool) -> (d: TitleAction)
    ensures
        d == title_decision(length, error_pending),
{
    if length != 0 {
        TitleAction::Fetch
    } else if !error_pending {
        TitleAction::Skip
    } else {
        TitleAction::Halt
    }
}

/// After a fetch, a zero-length copy stops the walk; any other length lets
/// it continue once the title has been reported.
pub fn continue_after_fetch(copied: i32) -> (r: bool)
    ensures
        r == (copied != 0),
{
    copied != 0
}

} // verus!
