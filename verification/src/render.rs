//! Render-command production: a pure projection of game state to draw
//! instructions, left to a rendering collaborator to rasterize.
use vstd::prelude::*;

use crate::SCREEN_HEIGHT;
use crate::SCREEN_WIDTH;
use crate::obstacle::Obstacle;
use crate::obstacle::outside_gap;
use crate::player::Player;

verus! {

/// The few colors the game draws with.
#[derive(Clone, Copy, PartialEq, Eq, Structural, Debug)]
pub enum Color {
    Red,
    Yellow,
    Black,
    Navy,
}

/// One draw instruction for the rendering collaborator.
#[derive(PartialEq, Eq, Debug)]
pub enum RenderCommand {
    ClearScreen,
    ClearBackground { color: Color },
    SetGlyph { col: i32, row: i32, glyph: char, fg: Color, bg: Color },
    PrintText { col: i32, row: i32, text: String },
    PrintCentered { row: i32, text: String },
}

/// The player's glyph: '@' at screen column 0, on the player's row.
pub open spec fn player_glyph(p: Player) -> RenderCommand {
    RenderCommand::SetGlyph { col: 0, row: p.y, glyph: '@', fg: Color::Yellow, bg: Color::Black }
}

/// One cell of an obstacle's bar.
pub open spec fn bar_cell(col: i32, row: i32) -> RenderCommand {
    RenderCommand::SetGlyph { col, row, glyph: '|', fg: Color::Red, bg: Color::Black }
}

/// The bar cells of an obstacle at screen column `screen_x`, for all rows
/// below `n` that lie outside the gap, in ascending row order.
pub open spec fn bar_cmds_upto(ob: Obstacle, screen_x: i32, n: int) -> Seq<RenderCommand>
    decreases n,
{
    if n <= 0 {
        Seq::empty()
    } else {
        bar_cmds_upto(ob, screen_x, n - 1) + (if outside_gap(ob, n - 1) {
            seq![bar_cell(screen_x, (n - 1) as i32)]
        } else {
            Seq::empty()
        })
    }
}

/// Everything drawn for one obstacle: its full bar when its column is on
/// screen (within `[0, SCREEN_WIDTH]` of the player), nothing otherwise.
pub open spec fn obstacle_cmds(ob: Obstacle, player_x: int) -> Seq<RenderCommand> {
    if player_x <= ob.world_x && ob.world_x <= player_x + SCREEN_WIDTH {
        bar_cmds_upto(ob, (ob.world_x - player_x) as i32, SCREEN_HEIGHT as int)
    } else {
        Seq::empty()
    }
}

/// Everything drawn for the first `k` obstacles of the stream, in order.
pub open spec fn all_obstacle_cmds(obs: Seq<Obstacle>, player_x: int, k: int) -> Seq<RenderCommand>
    decreases k,
{
    if k <= 0 {
        Seq::empty()
    } else {
        all_obstacle_cmds(obs, player_x, k - 1) + obstacle_cmds(obs[k - 1], player_x)
    }
}

impl Player {
    /// The player's one draw instruction.
    pub fn render(&self) -> (c: RenderCommand)
        ensures
            c == player_glyph(*self),
    {
        RenderCommand::SetGlyph { col: 0, row: self.y, glyph: '@', fg: Color::Yellow, bg: Color::Black }
    }
}

impl Obstacle {
    /// The obstacle's draw instructions: when its column is on screen, one
    /// '|' glyph per row outside the gap, top to bottom; nothing otherwise.
    pub fn render(&self, player_x: i32) -> (cmds: Vec<RenderCommand>)
        requires
            self.wf(),
            player_x <= i32::MAX - SCREEN_WIDTH,
        ensures
            cmds@ == obstacle_cmds(*self, player_x as int),
    {
        let mut cmds: Vec<RenderCommand> = Vec::new();
        if !(self.world_x >= player_x && self.world_x <= player_x + SCREEN_WIDTH) {
            proof {
                assert(cmds@ =~= obstacle_cmds(*self, player_x as int));
            }
            return cmds;
        }
        let screen_x = self.world_x - player_x;
        let half = self.gap_size / 2;
        let mut y: i32 = 0;
        while y < SCREEN_HEIGHT
            invariant
                self.wf(),
                0 <= y <= SCREEN_HEIGHT,
                half == self.gap_size / 2,
                player_x <= self.world_x <= player_x + SCREEN_WIDTH,
                player_x <= i32::MAX - SCREEN_WIDTH,
                screen_x == self.world_x - player_x,
                cmds@ == bar_cmds_upto(*self, screen_x, y as int),
            decreases SCREEN_HEIGHT - y,
        {
            if y < self.gap_center_y - half || y > self.gap_center_y + half {
                cmds.push(
                    RenderCommand::SetGlyph {
                        col: screen_x,
                        row: y,
                        glyph: '|',
                        fg: Color::Red,
                        bg: Color::Black,
                    },
                );
            }
            proof {
                assert(cmds@ =~= bar_cmds_upto(*self, screen_x, y as int + 1));
            }
            y = y + 1;
        }
        cmds
    }
}

} // verus!
