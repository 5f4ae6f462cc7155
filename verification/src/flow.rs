//! The flow of the game: assets are loaded first, then the game is played.

use vstd::prelude::*;

verus! {

/// The two stages of the game. It starts in `Loading`.
#[derive(Debug, Clone, Copy, Eq, PartialEq, Hash, Structural)]
pub enum AppState {
    /// The course's assets are being fetched.
    Loading,
    /// The course is set up and the ball can be played.
    InGame,
}

/// How far the tracked assets have come, taken together.
#[derive(Debug, Clone, Copy, Eq, PartialEq, Hash, Structural)]
pub enum LoadStatus {
    /// Loading has not begun.
    NotLoaded,
    /// At least one asset is still on its way and none has failed.
    Loading,
    /// Every asset is there.
    Loaded,
    /// An asset could not be loaded.
    Failed,
    /// An asset was loaded once and has been dropped since.
    Unloaded,
}

/// What one look at the load status calls for.
#[derive(Debug, Clone, Copy, Eq, PartialEq, Hash, Structural)]
pub enum LoadCheck {
    /// Loading has failed. Nothing is done and nothing is said: the game
    /// stays in `Loading`.
    Stalled,
    /// Every asset is there: the game moves to the given stage.
    Enter(AppState),
    /// Loading is not over: this is reported, and the game looks again in
    /// the next frame.
    Waiting,
}

/// Decides, while the game is in `Loading`, what follows from the load
/// status of the tracked assets.
///
/// Only `Loaded` lets the game move on, and it moves to `InGame`. `Failed`
/// is passed over in silence. Every other status means waiting.
pub fn check_load_assets(status: LoadStatus) -> (check: LoadCheck)
    ensures
        status is Loaded ==> check == LoadCheck::Enter(AppState::InGame),
        status is Failed ==> check is Stalled,
        !(status is Loaded) && !(status is Failed) ==> check is Waiting,
{
    match status {
        LoadStatus::Failed => LoadCheck::Stalled,
        LoadStatus::Loaded => LoadCheck::Enter(AppState::InGame),
        _ => LoadCheck::Waiting,
    }
}

} // verus!
