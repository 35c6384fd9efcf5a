//! The player entity: one direction state, one position, one animation
//! state, updated once per tick and read once per frame by the renderer.

use vstd::prelude::*;
use crate::animation::AnimationState;
use crate::animation::spec_advance_animation;
use crate::input::Direction;
use crate::input::KeyCode;
use crate::input::spec_update_from_keycode;
use crate::motion::AnimationRow;
use crate::motion::BASE_HEIGHT;
use crate::motion::BASE_WIDTH;
use crate::motion::Position;
use crate::motion::get_scaled_resolution;
use crate::motion::round_div;
use crate::motion::select_animation_row;
use crate::motion::spec_select_animation_row;
use crate::motion::x_delta;
use crate::motion::y_delta;

verus! {

/// World units the player moves per held directional flag per tick.
pub const PLAYER_MOVEMENT: i64 = 5;

/// Frames in the player's walk cycle.
pub const TOTAL_FRAMES: u64 = 4;

/// Milliseconds between walk-cycle frame increments.
pub const FRAME_PERIOD_MS: u64 = 150;

/// The single moving, animated entity.
pub struct Player {
    /// The window resolution the entity is drawn into, in pixels.
    pub resolution_width: u32,
    pub resolution_height: u32,
    /// Where the entity stands, in world units.
    pub position: Position,
    /// Which directional keys are currently held.
    pub direction: Direction,
    /// The walk-cycle timing state.
    pub animation: AnimationState,
}

/// Everything the renderer needs for one frame of the player: which cell of
/// the sprite sheet to cut out, where to put it, and how much to scale it.
pub struct DrawRequest {
    /// Current frame of the walk cycle; the horizontal source offset is the
    /// fraction `frame_index / total_frames` of the sheet.
    pub frame_index: u64,
    /// Frames per cycle, and so cells per sheet row.
    pub total_frames: u64,
    /// The facing row of the sheet.
    pub row: AnimationRow,
    /// Destination, in pixels: the position scaled per axis.
    pub dest_x: i64,
    pub dest_y: i64,
    /// The per-axis scale factors the destination was computed with, also
    /// used to scale the sprite itself.
    pub scale_x: u32,
    pub scale_y: u32,
}

/// The state a player spawns with: at the origin, no key held, not moving,
/// at frame zero of a [`TOTAL_FRAMES`]-frame cycle timed by
/// [`FRAME_PERIOD_MS`], with the clock sampled at `now`.
pub open spec fn spec_initial_player(width: u32, height: u32, now: u64) -> Player {
    Player {
        resolution_width: width,
        resolution_height: height,
        position: Position { x: 0, y: 0 },
        direction: Direction { up: false, down: false, left: false, right: false },
        animation: AnimationState {
            frame_index: 0,
            total_frames: TOTAL_FRAMES,
            last_advance_time: now,
            frame_period: FRAME_PERIOD_MS,
            is_moving: false,
        },
    }
}

impl Player {
    /// Well-formedness: the walk cycle's invariant holds.
    pub open spec fn wf(self) -> bool {
        self.animation.wf()
    }

    /// Spawns the player for a window of the given resolution, with the
    /// clock read `now` (in milliseconds) as the cycle's starting point.
    pub fn new(resolution_width: u32, resolution_height: u32, now: u64) -> (p: Player)
        ensures
            p == spec_initial_player(resolution_width, resolution_height, now),
            p.wf(),
    {
        Player {
            resolution_width,
            resolution_height,
            position: Position::default(),
            direction: Direction::default(),
            animation: AnimationState::new(TOTAL_FRAMES, FRAME_PERIOD_MS, now),
        }
    }

    /// One simulation tick: moves the position by [`PLAYER_MOVEMENT`] world
    /// units per held flag, per axis. Nothing else changes; held opposite
    /// flags cancel on their axis.
    pub fn update(&mut self)
        requires
            i64::MIN <= old(self).position.x + x_delta(old(self).direction, PLAYER_MOVEMENT)
                <= i64::MAX,
            i64::MIN <= old(self).position.y + y_delta(old(self).direction, PLAYER_MOVEMENT)
                <= i64::MAX,
        ensures
            final(self).position.x == old(self).position.x + x_delta(
                old(self).direction,
                PLAYER_MOVEMENT,
            ),
            final(self).position.y == old(self).position.y + y_delta(
                old(self).direction,
                PLAYER_MOVEMENT,
            ),
            final(self).direction == old(self).direction,
            final(self).animation == old(self).animation,
            final(self).resolution_width == old(self).resolution_width,
            final(self).resolution_height == old(self).resolution_height,
    {
        let d = self.direction;
        self.position.advance_position(&d, PLAYER_MOVEMENT);
    }

    /// Prepares one frame for the renderer: first advances the walk cycle
    /// for the clock reading `now` (a no-op while idle or within a frame
    /// period), then reports the cycle's frame, the facing row chosen from
    /// the held directions, and the position scaled to the window.
    pub fn draw_request(&mut self, now: u64) -> (req: DrawRequest)
        requires
            old(self).wf(),
            i64::MIN <= old(self).position.x * round_div(
                old(self).resolution_width as nat,
                BASE_WIDTH as nat,
            ) <= i64::MAX,
            i64::MIN <= old(self).position.y * round_div(
                old(self).resolution_height as nat,
                BASE_HEIGHT as nat,
            ) <= i64::MAX,
        ensures
            final(self).animation == spec_advance_animation(old(self).animation, now),
            final(self).position == old(self).position,
            final(self).direction == old(self).direction,
            final(self).resolution_width == old(self).resolution_width,
            final(self).resolution_height == old(self).resolution_height,
            final(self).wf(),
            req.frame_index == final(self).animation.frame_index,
            req.total_frames == old(self).animation.total_frames,
            req.row == spec_select_animation_row(old(self).direction),
            req.scale_x == round_div(old(self).resolution_width as nat, BASE_WIDTH as nat),
            req.scale_y == round_div(old(self).resolution_height as nat, BASE_HEIGHT as nat),
            req.dest_x == old(self).position.x * req.scale_x,
            req.dest_y == old(self).position.y * req.scale_y,
    {
        let scale = get_scaled_resolution(self.resolution_width, self.resolution_height);
        self.animation.advance_animation(now);
        let row = select_animation_row(&self.direction);
        let dest_x = self.position.x * (scale.0 as i64);
        let dest_y = self.position.y * (scale.1 as i64);
        DrawRequest {
            frame_index: self.animation.frame_index,
            total_frames: self.animation.total_frames,
            row,
            dest_x,
            dest_y,
            scale_x: scale.0,
            scale_y: scale.1,
        }
    }
}

/// The whole per-entity game state the host drives: key transitions come in
/// through the key-event methods, one [`GameState::update`] runs per tick,
/// and the renderer reads a [`DrawRequest`] per frame.
pub struct GameState {
    pub player: Player,
    /// The window resolution, in pixels.
    pub resolution_width: u32,
    pub resolution_height: u32,
}

impl GameState {
    /// Well-formedness: the player's invariant holds.
    pub open spec fn wf(self) -> bool {
        self.player.wf()
    }

    /// Builds the state for a window of the given resolution, with the
    /// clock read `now` (in milliseconds).
    pub fn new(resolution_width: u32, resolution_height: u32, now: u64) -> (g: GameState)
        ensures
            g.player == spec_initial_player(resolution_width, resolution_height, now),
            g.resolution_width == resolution_width,
            g.resolution_height == resolution_height,
            g.wf(),
    {
        GameState {
            player: Player::new(resolution_width, resolution_height, now),
            resolution_width,
            resolution_height,
        }
    }

    /// One simulation tick: the player moves by the held directions.
    pub fn update(&mut self)
        requires
            i64::MIN <= old(self).player.position.x + x_delta(
                old(self).player.direction,
                PLAYER_MOVEMENT,
            ) <= i64::MAX,
            i64::MIN <= old(self).player.position.y + y_delta(
                old(self).player.direction,
                PLAYER_MOVEMENT,
            ) <= i64::MAX,
        ensures
            final(self).player.position.x == old(self).player.position.x + x_delta(
                old(self).player.direction,
                PLAYER_MOVEMENT,
            ),
            final(self).player.position.y == old(self).player.position.y + y_delta(
                old(self).player.direction,
                PLAYER_MOVEMENT,
            ),
            final(self).player.direction == old(self).player.direction,
            final(self).player.animation == old(self).player.animation,
            final(self).player.resolution_width == old(self).player.resolution_width,
            final(self).player.resolution_height == old(self).player.resolution_height,
            final(self).resolution_width == old(self).resolution_width,
            final(self).resolution_height == old(self).resolution_height,
    {
        self.player.update();
    }

    /// A key went down: the named directional flag is set (non-directional
    /// keys change no flag), and the walk cycle starts — any key press marks
    /// the entity as moving.
    pub fn key_down_event(&mut self, key: KeyCode)
        ensures
            final(self).player.direction == spec_update_from_keycode(
                old(self).player.direction,
                key,
                true,
            ),
            final(self).player.animation == (AnimationState {
                is_moving: true,
                ..old(self).player.animation
            }),
            final(self).player.position == old(self).player.position,
            final(self).player.resolution_width == old(self).player.resolution_width,
            final(self).player.resolution_height == old(self).player.resolution_height,
            final(self).resolution_width == old(self).resolution_width,
            final(self).resolution_height == old(self).resolution_height,
    {
        self.player.animation.is_moving = true;
        self.player.direction.update_from_keycode(key, true);
    }

    /// A key came up: the named directional flag is cleared (non-directional
    /// keys change no flag), and the walk cycle stops — any single release
    /// marks the entity as idle, even while other directional keys stay
    /// held. That the cycle can stop while flags remain held is a deliberate
    /// quirk of this design, kept for compatibility.
    pub fn key_up_event(&mut self, key: KeyCode)
        ensures
            final(self).player.direction == spec_update_from_keycode(
                old(self).player.direction,
                key,
                false,
            ),
            final(self).player.animation == (AnimationState {
                is_moving: false,
                ..old(self).player.animation
            }),
            final(self).player.position == old(self).player.position,
            final(self).player.resolution_width == old(self).player.resolution_width,
            final(self).player.resolution_height == old(self).player.resolution_height,
            final(self).resolution_width == old(self).resolution_width,
            final(self).resolution_height == old(self).resolution_height,
    {
        self.player.direction.update_from_keycode(key, false);
        self.player.animation.is_moving = false;
    }

    /// The size, in pixels, of the scaled base canvas the scene is drawn
    /// on: the base resolution times the per-axis scale factor.
    pub fn background_size(&self) -> (size: (u64, u64))
        ensures
            size.0 == (BASE_WIDTH as nat) * round_div(
                self.resolution_width as nat,
                BASE_WIDTH as nat,
            ),
            size.1 == (BASE_HEIGHT as nat) * round_div(
                self.resolution_height as nat,
                BASE_HEIGHT as nat,
            ),
    {
        let scale = get_scaled_resolution(self.resolution_width, self.resolution_height);
        ((BASE_WIDTH as u64) * (scale.0 as u64), (BASE_HEIGHT as u64) * (scale.1 as u64))
    }
}

} // verus!
