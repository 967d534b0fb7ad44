use vstd::prelude::*;

verus! {

/// Width of the virtual screen, in pixels.
pub const SCREEN_WIDTH: i32 = 1920;

/// Height of the virtual screen, in pixels.
pub const SCREEN_HEIGHT: i32 = 1080;

/// The two screens of the prototype.
#[derive(Clone, Copy, Debug, PartialEq, Eq, Structural)]
pub enum SceneKind {
    /// The first screen, which spawns the test entities and logs them.
    Test,
    /// The second screen, which shows its text and nothing else.
    Test2,
}

/// What a scene decides to do in its update.
#[derive(Clone, Copy, Debug, PartialEq, Eq, Structural)]
pub enum SceneAction {
    /// Enter a new scene of this kind on top of the current one.
    Enter(SceneKind),
    /// Write a log line for each entity of the world.
    LogEntities,
    /// Do nothing this frame.
    Idle,
}

/// The scene that the space key leads to from each scene.
pub open spec fn successor(kind: SceneKind) -> SceneKind {
    match kind {
        SceneKind::Test => SceneKind::Test2,
        SceneKind::Test2 => SceneKind::Test,
    }
}

/// What a scene does in its update: with space pressed it enters the other
/// scene; otherwise the first scene logs the entities and the second idles.
pub open spec fn update_action(kind: SceneKind, space_pressed: bool) -> SceneAction {
    if space_pressed {
        SceneAction::Enter(successor(kind))
    } else {
        match kind {
            SceneKind::Test => SceneAction::LogEntities,
            SceneKind::Test2 => SceneAction::Idle,
        }
    }
}

pub open spec fn title_spec(kind: SceneKind) -> Seq<char> {
    match kind {
        SceneKind::Test => "Test Scene"@,
        SceneKind::Test2 => "Test Scene 2"@,
    }
}

pub open spec fn body_spec() -> Seq<char> {
    "This is some test text.\n\nYay Ludum Dare!\nThe 46th one!\nThat's this one!\nWill I succeed?\nI better.\n\nHere we go..."@
}

impl SceneKind {
    /// The scene's decision for this frame's update.
    pub fn on_update(self, space_pressed: bool) -> (r: SceneAction)
        ensures
            r == update_action(self, space_pressed),
    {
        if space_pressed {
            match self {
                SceneKind::Test => SceneAction::Enter(SceneKind::Test2),
                SceneKind::Test2 => SceneAction::Enter(SceneKind::Test),
            }
        } else {
            match self {
                SceneKind::Test => SceneAction::LogEntities,
                SceneKind::Test2 => SceneAction::Idle,
            }
        }
    }

    /// Whether entering this scene spawns the test entities.
    pub fn spawns_entities(self) -> (r: bool)
        ensures
            r == (self == SceneKind::Test),
    {
        match self {
            SceneKind::Test => true,
            SceneKind::Test2 => false,
        }
    }

    /// The heading shown at the top of the scene.
    pub fn title(self) -> (r: &'static str)
        ensures
            r@ == title_spec(self),
    {
        match self {
            SceneKind::Test => "Test Scene",
            SceneKind::Test2 => "Test Scene 2",
        }
    }

    /// The body text shown under the heading; the same in both scenes.
    pub fn body(self) -> (r: &'static str)
        ensures
            r@ == body_spec(),
    {
        "This is some test text.\n\nYay Ludum Dare!\nThe 46th one!\nThat's this one!\nWill I succeed?\nI better.\n\nHere we go..."
    }
}

/// Pressing space twice from any scene leads back to a scene of the same kind.
pub proof fn lemma_space_twice_returns(kind: SceneKind)
    ensures
        successor(successor(kind)) == kind,
{
}

} // verus!
