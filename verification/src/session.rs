//! The game session: all simulation state, the mode state machine, and the
//! per-frame update routines.
use std::collections::VecDeque;

use vstd::prelude::*;

use crate::FRAME_DURATION_MICROS;
use crate::SCREEN_HEIGHT;
use crate::SCREEN_WIDTH;
use crate::obstacle::Obstacle;
use crate::obstacle::spec_gap_size;
use crate::obstacle::spec_hit;
use crate::player::Player;
use crate::render::Color;
use crate::render::RenderCommand;
use crate::render::all_obstacle_cmds;
use crate::render::player_glyph;
use crate::rng::rng_new;
use crate::rng::rng_range;
use crate::text::over_line;
use crate::text::score_line;
use crate::text::spec_over_line;
use crate::text::spec_score_line;
use bracket_lib::random::RandomNumberGenerator;

verus! {

/// Which update and render routine runs: the start menu, the live game, or
/// the game-over screen.
#[derive(Clone, Copy, PartialEq, Eq, Structural, Debug)]
pub enum GameMode {
    Menu,
    Playing,
    Over,
}

/// The one discrete key event a frame may carry. Keys other than the three
/// recognized ones — and frames without a key — are `Other`.
#[derive(Clone, Copy, PartialEq, Eq, Structural, Debug)]
pub enum InputEvent {
    Start,
    Quit,
    Jump,
    Other,
}

pub struct GameSession {
    pub mode: GameMode,
    pub player: Player,
    /// Time since the last physics step, in microseconds; reset on a step.
    pub accumulated_time_micros: u64,
    /// Obstacles ordered by ascending world column; front = nearest.
    pub obstacles: VecDeque<Obstacle>,
    /// Count of obstacles fully passed.
    pub score: i32,
    pub rng: RandomNumberGenerator,
}

/// The session has just been (re)started: Playing mode with a fresh
/// player, an empty obstacle stream, and score and clock at zero.
pub open spec fn spec_restarted(post: GameSession) -> bool {
    &&& post.mode == GameMode::Playing
    &&& post.player == (Player { world_x: 5, y: 25, velocity: 0 })
    &&& post.accumulated_time_micros == 0
    &&& post.obstacles@.len() == 0
    &&& post.score == 0
}

/// The spawn rule fires when the stream is empty, or when the furthest
/// obstacle is already within one screen width ahead of the player.
pub open spec fn spec_spawn_due(obs: Seq<Obstacle>, px: int) -> bool {
    ||| obs.len() == 0
    ||| (px <= obs.last().world_x && obs.last().world_x < px + SCREEN_WIDTH)
}

/// `c` prints `t` centered on the given row.
pub open spec fn spec_is_centered(c: RenderCommand, row: int, t: Seq<char>) -> bool {
    c matches RenderCommand::PrintCentered { row: r, text } && r == row && text@ == t
}

/// `c` prints `t` at the given column and row.
pub open spec fn spec_is_text(c: RenderCommand, col: int, row: int, t: Seq<char>) -> bool {
    c matches RenderCommand::PrintText { col: cl, row: r, text } && cl == col && r == row
        && text@ == t
}

/// What the start menu draws: a cleared screen and three centered prompts.
pub open spec fn spec_menu_cmds(cs: Seq<RenderCommand>) -> bool {
    &&& cs.len() == 4
    &&& cs[0] == RenderCommand::ClearScreen
    &&& spec_is_centered(cs[1], 4, "Welcome to bb game!"@)
    &&& spec_is_centered(cs[2], 6, "Press [P] to start"@)
    &&& spec_is_centered(cs[3], 9, "Press [Q] to exit"@)
}

/// What the game-over screen draws: a cleared screen, the death banner with
/// the final score, and two centered prompts.
pub open spec fn spec_over_cmds(cs: Seq<RenderCommand>, score: int) -> bool {
    &&& cs.len() == 4
    &&& cs[0] == RenderCommand::ClearScreen
    &&& spec_is_centered(cs[1], 5, spec_over_line(score))
    &&& spec_is_centered(cs[2], 6, "Press [P] to start"@)
    &&& spec_is_centered(cs[3], 9, "Press [Q] to exit"@)
}

/// What a Playing-mode update draws: the background clear, the player's
/// glyph, the status line with the score, then every on-screen obstacle's
/// bar, in stream order.
pub open spec fn spec_play_cmds(cs: Seq<RenderCommand>, post: GameSession) -> bool {
    &&& cs.len() >= 3
    &&& cs[0] == (RenderCommand::ClearBackground { color: Color::Navy })
    &&& cs[1] == player_glyph(post.player)
    &&& spec_is_text(cs[2], 0, 0, spec_score_line(post.score as int))
    &&& cs.subrange(3, cs.len() as int) == all_obstacle_cmds(
        post.obstacles@,
        post.player.world_x as int,
        post.obstacles@.len() as int,
    )
}

/// The menu and game-over screens share one transition rule: Start begins a
/// fresh round, Quit requests exit, anything else changes nothing.
pub open spec fn spec_menu_rel(
    pre: GameSession,
    post: GameSession,
    input: InputEvent,
    quit: bool,
) -> bool {
    &&& (input == InputEvent::Start ==> spec_restarted(post))
    &&& (input != InputEvent::Start ==> post == pre)
    &&& quit == (input == InputEvent::Quit)
}

/// One Playing-mode update, in order: at most one physics step once 75 ms
/// have accumulated; eviction of at most one passed obstacle, scoring it;
/// at most one spawn; the flap; then the out-of-bounds and collision checks
/// deciding the next mode.
pub open spec fn spec_play_rel(
    pre: GameSession,
    post: GameSession,
    input: InputEvent,
    elapsed: u64,
) -> bool {
    let stepped = pre.accumulated_time_micros + elapsed > FRAME_DURATION_MICROS;
    let px1: int = pre.player.world_x + (if stepped {
        1int
    } else {
        0int
    });
    let evicted = pre.obstacles@.len() > 0 && (pre.obstacles@[0].world_x as int) < px1;
    let obs1 = if evicted {
        pre.obstacles@.drop_first()
    } else {
        pre.obstacles@
    };
    let score1: int = pre.score + (if evicted {
        1int
    } else {
        0int
    });
    &&& post.accumulated_time_micros as int == (if stepped {
        0int
    } else {
        pre.accumulated_time_micros + elapsed
    })
    &&& post.player.world_x as int == px1
    &&& post.player.y as int == (if stepped {
        pre.player.stepped_y()
    } else {
        pre.player.y as int
    })
    &&& post.player.velocity as int == (if input == InputEvent::Jump {
        -2int
    } else if stepped {
        pre.player.stepped_velocity()
    } else {
        pre.player.velocity as int
    })
    &&& post.score as int == score1
    &&& (!spec_spawn_due(obs1, px1) ==> post.obstacles@ == obs1)
    &&& (spec_spawn_due(obs1, px1) ==> {
        let spawned = post.obstacles@.last();
        &&& post.obstacles@.len() == obs1.len() + 1
        &&& post.obstacles@.subrange(0, obs1.len() as int) == obs1
        &&& spawned.wf()
        &&& spawned.gap_size == spec_gap_size(score1)
        &&& spawned.world_x >= px1 + SCREEN_WIDTH
        &&& (obs1.len() == 0 ==> spawned.world_x == px1 + SCREEN_WIDTH)
        &&& (obs1.len() > 0 ==> {
            &&& spawned.world_x > obs1.last().world_x
            &&& spawned.world_x <= obs1.last().world_x + 19 || spawned.world_x == px1
                + SCREEN_WIDTH
        })
    })
    &&& post.mode == (if post.player.y > SCREEN_HEIGHT || (exists|i: int|
        0 <= i < post.obstacles@.len() && #[trigger] spec_hit(post.obstacles@[i], post.player)) {
        GameMode::Over
    } else {
        GameMode::Playing
    })
}

impl GameSession {
    /// The session's invariant: a well-formed player that never scrolls
    /// backwards past the origin, a non-negative score, a clock below one
    /// physics step, and well-formed obstacles on strictly ascending
    /// columns.
    pub open spec fn wf(self) -> bool {
        &&& self.player.wf()
        &&& self.player.world_x >= 0
        &&& self.score >= 0
        &&& self.accumulated_time_micros <= FRAME_DURATION_MICROS
        &&& forall|i: int|
            0 <= i < self.obstacles@.len() ==> (#[trigger] self.obstacles@[i]).wf()
        &&& forall|i: int, j: int|
            0 <= i < j < self.obstacles@.len()
                ==> self.obstacles@[i].world_x < self.obstacles@[j].world_x
    }

    /// A fresh session: menu mode, the player at (5, 25) with no speed, no
    /// obstacles, score zero.
    pub fn new() -> (s: GameSession)
        ensures
            s.mode == GameMode::Menu,
            s.player == (Player { world_x: 5, y: 25, velocity: 0 }),
            s.accumulated_time_micros == 0,
            s.obstacles@.len() == 0,
            s.score == 0,
            s.wf(),
    {
        GameSession {
            mode: GameMode::Menu,
            player: Player::new(5, 25),
            accumulated_time_micros: 0,
            obstacles: VecDeque::new(),
            score: 0,
            rng: rng_new(),
        }
    }

    /// Begin a round: reset the player, clear the obstacles, zero the score
    /// and the clock, and enter Playing mode.
    pub fn restart(&mut self)
        ensures
            spec_restarted(*final(self)),
            final(self).wf(),
    {
        self.mode = GameMode::Playing;
        self.player = Player::new(5, 25);
        self.accumulated_time_micros = 0;
        self.obstacles.clear();
        self.score = 0;
    }

    /// Evict the front obstacle if the player has passed it; returns whether
    /// one was removed. At most one obstacle leaves per call; everything
    /// else is untouched.
    pub fn pop_obstacle(&mut self) -> (r: bool)
        ensures
            r == (old(self).obstacles@.len() > 0 && old(self).obstacles@[0].world_x
                < old(self).player.world_x),
            r ==> final(self).obstacles@ == old(self).obstacles@.drop_first(),
            !r ==> final(self).obstacles@ == old(self).obstacles@,
            final(self).mode == old(self).mode,
            final(self).player == old(self).player,
            final(self).accumulated_time_micros == old(self).accumulated_time_micros,
            final(self).score == old(self).score,
            old(self).wf() ==> final(self).wf(),
    {
        if self.obstacles.len() > 0 && self.obstacles[0].world_x < self.player.world_x {
            self.obstacles.pop_front();
            return true;
        }
        false
    }

    /// Spawn at most one obstacle: one at `player.world_x + SCREEN_WIDTH`
    /// when the stream is empty; otherwise, when the furthest obstacle has
    /// come within a screen width, one past it by a random gap of at least
    /// `min(10, 20 - score)` columns, but never nearer than a full screen
    /// width ahead of the player. The draw's lower bound is at most 10, so
    /// the range handed to the generator is never empty, however high the
    /// score climbs.
    pub fn push_obstacle(&mut self)
        requires
            old(self).wf(),
            old(self).player.world_x <= i32::MAX - 100,
        ensures
            final(self).mode == old(self).mode,
            final(self).player == old(self).player,
            final(self).accumulated_time_micros == old(self).accumulated_time_micros,
            final(self).score == old(self).score,
            !spec_spawn_due(old(self).obstacles@, old(self).player.world_x as int)
                ==> final(self).obstacles@ == old(self).obstacles@,
            spec_spawn_due(old(self).obstacles@, old(self).player.world_x as int) ==> {
                let spawned = final(self).obstacles@.last();
                &&& final(self).obstacles@.len() == old(self).obstacles@.len() + 1
                &&& final(self).obstacles@.subrange(0, old(self).obstacles@.len() as int)
                    == old(self).obstacles@
                &&& spawned.wf()
                &&& spawned.gap_size == spec_gap_size(old(self).score as int)
                &&& spawned.world_x >= old(self).player.world_x + SCREEN_WIDTH
                &&& (old(self).obstacles@.len() == 0
                    ==> spawned.world_x == old(self).player.world_x + SCREEN_WIDTH)
                &&& (old(self).obstacles@.len() > 0 ==> {
                    &&& spawned.world_x > old(self).obstacles@.last().world_x
                    &&& spawned.world_x <= old(self).obstacles@.last().world_x + 19
                        || spawned.world_x == old(self).player.world_x + SCREEN_WIDTH
                })
            },
            final(self).wf(),
    {
        if self.obstacles.len() == 0 {
            let ob = Obstacle::new(&mut self.rng, self.player.world_x + SCREEN_WIDTH, self.score);
            self.obstacles.push_back(ob);
        } else {
            let last = self.obstacles[self.obstacles.len() - 1];
            if last.world_x >= self.player.world_x
                && last.world_x < self.player.world_x + SCREEN_WIDTH {
                let low: i32 = if 20 - self.score < 10 {
                    20 - self.score
                } else {
                    10
                };
                let gap = rng_range(&mut self.rng, low, 20);
                let base = self.player.world_x + SCREEN_WIDTH;
                let candidate = last.world_x + gap;
                let pos = if candidate > base {
                    candidate
                } else {
                    base
                };
                let ob = Obstacle::new(&mut self.rng, pos, self.score);
                self.obstacles.push_back(ob);
                proof {
                    assert forall|i: int, j: int|
                        0 <= i < j < self.obstacles@.len() implies self.obstacles@[i].world_x
                        < self.obstacles@[j].world_x by {
                        if j == self.obstacles@.len() - 1 {
                            assert(self.obstacles@[i] == old(self).obstacles@[i]);
                            if i < old(self).obstacles@.len() - 1 {
                                assert(old(self).obstacles@[i].world_x
                                    < old(self).obstacles@[old(self).obstacles@.len() - 1].world_x);
                            }
                        }
                    }
                }
            }
        }
    }

    /// The start-menu update: produce the menu screen, then apply the
    /// shared menu transition rule to the input.
    pub fn main_menu(&mut self, input: InputEvent) -> (r: (Vec<RenderCommand>, bool))
        ensures
            spec_menu_rel(*old(self), *final(self), input, r.1),
            spec_menu_cmds(r.0@),
            old(self).wf() ==> final(self).wf(),
    {
        let mut cmds: Vec<RenderCommand> = Vec::new();
        cmds.push(RenderCommand::ClearScreen);
        cmds.push(RenderCommand::PrintCentered { row: 4, text: "Welcome to bb game!".to_owned() });
        cmds.push(RenderCommand::PrintCentered { row: 6, text: "Press [P] to start".to_owned() });
        cmds.push(RenderCommand::PrintCentered { row: 9, text: "Press [Q] to exit".to_owned() });
        let mut quit = false;
        match input {
            InputEvent::Start => self.restart(),
            InputEvent::Quit => {
                quit = true;
            },
            _ => {},
        }
        (cmds, quit)
    }

    /// The game-over update: produce the death screen with the final
    /// score, then apply the shared menu transition rule to the input.
    pub fn game_over(&mut self, input: InputEvent) -> (r: (Vec<RenderCommand>, bool))
        requires
            old(self).score >= 0,
        ensures
            spec_menu_rel(*old(self), *final(self), input, r.1),
            spec_over_cmds(r.0@, old(self).score as int),
            old(self).wf() ==> final(self).wf(),
    {
        let mut cmds: Vec<RenderCommand> = Vec::new();
        cmds.push(RenderCommand::ClearScreen);
        cmds.push(RenderCommand::PrintCentered { row: 5, text: over_line(self.score) });
        cmds.push(RenderCommand::PrintCentered { row: 6, text: "Press [P] to start".to_owned() });
        cmds.push(RenderCommand::PrintCentered { row: 9, text: "Press [Q] to exit".to_owned() });
        let mut quit = false;
        match input {
            InputEvent::Start => self.restart(),
            InputEvent::Quit => {
                quit = true;
            },
            _ => {},
        }
        (cmds, quit)
    }

    /// The Playing-mode update: accumulate time and run at most one physics
    /// step, evict and score at most one passed obstacle, spawn at most one
    /// obstacle, apply the flap, draw, and check the two terminal
    /// conditions.
    #[verifier::loop_isolation(false)]
    #[verifier::rlimit(60)]
    pub fn play(&mut self, input: InputEvent, elapsed_micros: u64) -> (cmds: Vec<RenderCommand>)
        requires
            old(self).wf(),
            old(self).mode == GameMode::Playing,
            old(self).player.y <= i32::MAX - 2,
            old(self).player.world_x < i32::MAX - 100,
            old(self).score < i32::MAX,
            elapsed_micros <= u64::MAX - FRAME_DURATION_MICROS,
        ensures
            spec_play_rel(*old(self), *final(self), input, elapsed_micros),
            spec_play_cmds(cmds@, *final(self)),
            final(self).wf(),
            final(self).score >= old(self).score,
    {
        let mut cmds: Vec<RenderCommand> = Vec::new();
        cmds.push(RenderCommand::ClearBackground { color: Color::Navy });
        self.accumulated_time_micros = self.accumulated_time_micros + elapsed_micros;
        if self.accumulated_time_micros > FRAME_DURATION_MICROS {
            self.accumulated_time_micros = 0;
            self.player.update();
        }
        if self.pop_obstacle() {
            self.score = self.score + 1;
        }
        self.push_obstacle();
        if input == InputEvent::Jump {
            self.player.flap();
        }
        cmds.push(self.player.render());
        cmds.push(RenderCommand::PrintText { col: 0, row: 0, text: score_line(self.score) });
        let ghost base = cmds@;
        let ghost mid = *self;
        if self.player.y > SCREEN_HEIGHT {
            self.mode = GameMode::Over;
        }
        let mut k: usize = 0;
        while k < self.obstacles.len()
            invariant
                self.wf(),
                k <= self.obstacles@.len(),
                self.player == mid.player,
                self.obstacles@ == mid.obstacles@,
                self.score == mid.score,
                self.accumulated_time_micros == mid.accumulated_time_micros,
                self.player.world_x <= i32::MAX - SCREEN_WIDTH,
                self.mode == (if mid.player.y > SCREEN_HEIGHT || (exists|i: int|
                    0 <= i < k && #[trigger] spec_hit(self.obstacles@[i], self.player)) {
                    GameMode::Over
                } else {
                    GameMode::Playing
                }),
                cmds@ == base + all_obstacle_cmds(
                    self.obstacles@,
                    self.player.world_x as int,
                    k as int,
                ),
            decreases self.obstacles@.len() - k,
        {
            let ob = self.obstacles[k];
            proof {
                assert(self.obstacles@[k as int].wf());
            }
            let mut oc = ob.render(self.player.world_x);
            cmds.append(&mut oc);
            proof {
                assert(cmds@ =~= base + all_obstacle_cmds(
                    self.obstacles@,
                    self.player.world_x as int,
                    k as int + 1,
                ));
            }
            if ob.player_hit(&self.player) {
                self.mode = GameMode::Over;
                proof {
                    assert(spec_hit(self.obstacles@[k as int], self.player));
                }
            }
            k = k + 1;
        }
        proof {
            assert(cmds@.subrange(3, cmds@.len() as int) =~= all_obstacle_cmds(
                self.obstacles@,
                self.player.world_x as int,
                self.obstacles@.len() as int,
            ));
        }
        cmds
    }

    /// One frame: clear, print the greeting, then run the update routine of
    /// the current mode. Returns the frame's draw instructions and whether
    /// the player asked to exit.
    pub fn tick(&mut self, input: InputEvent, elapsed_micros: u64) -> (r: (
        Vec<RenderCommand>,
        bool,
    ))
        requires
            old(self).wf(),
            old(self).player.y <= i32::MAX - 2,
            old(self).player.world_x < i32::MAX - 100,
            old(self).score < i32::MAX,
            elapsed_micros <= u64::MAX - FRAME_DURATION_MICROS,
        ensures
            final(self).wf(),
            r.0@.len() >= 2,
            r.0@[0] == RenderCommand::ClearScreen,
            spec_is_text(r.0@[1], 1, 1, "ola bb!"@),
            old(self).mode == GameMode::Menu ==> spec_menu_rel(
                *old(self),
                *final(self),
                input,
                r.1,
            ) && spec_menu_cmds(r.0@.subrange(2, r.0@.len() as int)),
            old(self).mode == GameMode::Over ==> spec_menu_rel(
                *old(self),
                *final(self),
                input,
                r.1,
            ) && spec_over_cmds(r.0@.subrange(2, r.0@.len() as int), old(self).score as int),
            old(self).mode == GameMode::Playing ==> spec_play_rel(
                *old(self),
                *final(self),
                input,
                elapsed_micros,
            ) && spec_play_cmds(r.0@.subrange(2, r.0@.len() as int), *final(self)) && r.1 == false,
    {
        let mut cmds: Vec<RenderCommand> = Vec::new();
        cmds.push(RenderCommand::ClearScreen);
        cmds.push(RenderCommand::PrintText { col: 1, row: 1, text: "ola bb!".to_owned() });
        let mut quit = false;
        match self.mode {
            GameMode::Menu => {
                let (mut sub, q) = self.main_menu(input);
                quit = q;
                let ghost subv = sub@;
                cmds.append(&mut sub);
                proof {
                    assert(cmds@.subrange(2, cmds@.len() as int) =~= subv);
                }
            },
            GameMode::Playing => {
                let mut sub = self.play(input, elapsed_micros);
                let ghost subv = sub@;
                cmds.append(&mut sub);
                proof {
                    assert(cmds@.subrange(2, cmds@.len() as int) =~= subv);
                }
            },
            GameMode::Over => {
                let (mut sub, q) = self.game_over(input);
                quit = q;
                let ghost subv = sub@;
                cmds.append(&mut sub);
                proof {
                    assert(cmds@.subrange(2, cmds@.len() as int) =~= subv);
                }
            },
        }
        (cmds, quit)
    }
}

} // verus!
