use vstd::prelude::*;
use crate::event::EventKind;
use crate::game::{Game, GameView, Plugin};
use crate::stage::Stage;
use crate::system::System;
use crate::world::{with_resource, PlayerSprite, Resource};

verus! {

/// Quits on Escape.
pub struct ExitPlugin;

/// Spawns a circle on E, clears them on R, and pulls them up every frame.
pub struct CirclePlugin;

/// Walks the player with W, A, S, D and keeps the camera on them.
pub struct PlayerPlugin;

impl Plugin for ExitPlugin {
    open spec fn applied(&self, g: GameView) -> GameView {
        g.with_event(EventKind::Exit)
            .with_systems(Stage::Producers, seq![System::ExitEvaluator])
            .with_systems(Stage::Consumers, seq![System::ExitConsumer])
    }

    fn apply(&self, game: &mut Game) {
        game.register_event(EventKind::Exit);
        let fs = vec![System::ExitEvaluator];
        assert(fs@ =~= seq![System::ExitEvaluator]);
        game.add_systems(Stage::Producers, fs);
        let fs = vec![System::ExitConsumer];
        assert(fs@ =~= seq![System::ExitConsumer]);
        game.add_systems(Stage::Consumers, fs);
    }
}

impl Plugin for CirclePlugin {
    open spec fn applied(&self, g: GameView) -> GameView {
        g.with_event(EventKind::CreateCircle)
            .with_event(EventKind::DestroyCircle)
            .with_event(EventKind::Gravity)
            .with_systems(
                Stage::Producers,
                seq![System::CircleCreator, System::CircleDestroyer, System::GravityEmitter],
            )
            .with_systems(
                Stage::Consumers,
                seq![System::CircleCreateConsumer, System::CircleDestroyConsumer, System::CircleGravityApplier],
            )
            .with_systems(Stage::Renders, seq![System::CircleRenderer])
    }

    fn apply(&self, game: &mut Game) {
        game.register_event(EventKind::CreateCircle);
        game.register_event(EventKind::DestroyCircle);
        game.register_event(EventKind::Gravity);
        let fs = vec![System::CircleCreator, System::CircleDestroyer, System::GravityEmitter];
        assert(fs@ =~= seq![System::CircleCreator, System::CircleDestroyer, System::GravityEmitter]);
        game.add_systems(Stage::Producers, fs);
        let fs = vec![System::CircleCreateConsumer, System::CircleDestroyConsumer, System::CircleGravityApplier];
        assert(fs@ =~= seq![System::CircleCreateConsumer, System::CircleDestroyConsumer, System::CircleGravityApplier]);
        game.add_systems(Stage::Consumers, fs);
        let fs = vec![System::CircleRenderer];
        assert(fs@ =~= seq![System::CircleRenderer]);
        game.add_systems(Stage::Renders, fs);
    }
}

impl Plugin for PlayerPlugin {
    open spec fn applied(&self, g: GameView) -> GameView {
        g.with_event(EventKind::Movement)
            .with_systems(Stage::Producers, seq![System::MovementInput])
            .with_systems(Stage::Consumers, seq![System::MovementApplier])
            .with_systems(Stage::Renders, seq![System::UpdateCameraTarget, System::RenderPlayer])
    }

    fn apply(&self, game: &mut Game) {
        game.register_event(EventKind::Movement);
        let fs = vec![System::MovementInput];
        assert(fs@ =~= seq![System::MovementInput]);
        game.add_systems(Stage::Producers, fs);
        let fs = vec![System::MovementApplier];
        assert(fs@ =~= seq![System::MovementApplier]);
        game.add_systems(Stage::Consumers, fs);
        let fs = vec![System::UpdateCameraTarget, System::RenderPlayer];
        assert(fs@ =~= seq![System::UpdateCameraTarget, System::RenderPlayer]);
        game.add_systems(Stage::Renders, fs);
    }
}

/// The player as it first appears: standing at `(x, y)` (sub-pixel units),
/// facing up, its animation playing.
pub open spec fn initial_player(x: i64, y: i64) -> PlayerSprite {
    PlayerSprite { x, y, animation: 0, playing: true }
}

/// Installs the player sprite at its start location `(x, y)`, in sub-pixel units.
pub fn add_player_sprite(game: &mut Game, x: i64, y: i64)
    requires
        old(game).wf(),
    ensures
        final(game).wf(),
        final(game)@ == (GameView {
            world: with_resource(old(game)@.world, Resource::Player(initial_player(x, y))),
            ..old(game)@
        }),
{
    game.add_resource(Resource::Player(PlayerSprite { x, y, animation: 0, playing: true }));
}

} // verus!
