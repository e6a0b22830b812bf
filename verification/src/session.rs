//! Applet session state: one applet number, its grid and separator
//! mirrors, and the rules that turn mirror state into wire commands.
//!
//! The session owns local mirror state only; nothing is ever read back
//! from the board. Mutations are pure local edits. The `*_command` and
//! `*_message` builders serialize the current mirrors into `Command`
//! values and wire bytes; the unverified transport shell sends those bytes
//! and hands the answering status byte to `status::decode_status` (or
//! `status::decode_handshake` for the creation handshake).

use vstd::prelude::*;
use crate::codec::Command;
use crate::codec::Opcode;
use crate::codec::command_json;
use crate::codec::encode_command;
use crate::status::InterfaceError;

verus! {

/// The separator kinds an applet can be created with. Chosen once at
/// creation and immutable for the session's lifetime; only `Variable`
/// accepts client-supplied separator pixel data.
#[derive(Clone, Copy, Debug, PartialEq, Eq, Structural)]
pub enum Separator {
    Empty,
    Solid,
    Dotted,
    Variable,
}

/// The wire ordinal a separator kind is encoded as in a CreateApplet
/// command's single parameter byte.
pub open spec fn separator_ordinal(s: Separator) -> u8 {
    match s {
        Separator::Empty => 0,
        Separator::Solid => 1,
        Separator::Dotted => 2,
        Separator::Variable => 3,
    }
}

/// Encode a separator kind as its wire ordinal.
pub fn separator_value(s: Separator) -> (r: u8)
    ensures
        r == separator_ordinal(s),
{
    match s {
        Separator::Empty => 0,
        Separator::Solid => 1,
        Separator::Dotted => 2,
        Separator::Variable => 3,
    }
}

/// One applet session's local state: the applet number it owns, the
/// separator kind chosen at creation, and the grid and separator mirrors
/// (10 rows of 9 brightness bytes, and 9 separator brightness bytes).
pub struct AppletInterface {
    app_num: u8,
    grid: [[u8; 9]; 10],
    separator_type: Separator,
    separator: [u8; 9],
}

impl AppletInterface {
    /// The applet number this session owns.
    pub closed spec fn applet_number(&self) -> u8 {
        self.app_num
    }

    /// The separator kind chosen at creation.
    pub closed spec fn separator_kind(&self) -> Separator {
        self.separator_type
    }

    /// The grid mirror as a matrix.
    pub closed spec fn grid_matrix(&self) -> [[u8; 9]; 10] {
        self.grid
    }

    /// One grid mirror cell.
    pub open spec fn grid_cell(&self, row: int, col: int) -> u8 {
        self.grid_matrix()@[row]@[col]
    }

    /// The separator mirror.
    pub closed spec fn bar_array(&self) -> [u8; 9] {
        self.separator
    }

    /// The grid mirror flattened in row-major order, as an UpdateGrid
    /// command carries it.
    pub open spec fn grid_row_major(&self) -> Seq<u8> {
        Seq::new(90, |k: int| self.grid_cell(k / 9, k % 9))
    }

    /// Open a session bound to one applet number, with zero-initialized
    /// mirrors. Applet numbers above 3 are rejected before any I/O could
    /// happen; the transport shell only connects for an `Ok` session.
    pub fn new(app_num: u8, separator_type: Separator) -> (r: Result<AppletInterface, InterfaceError>)
        ensures
            r is Ok <==> app_num <= 3,
            app_num > 3 ==> r == Err::<AppletInterface, InterfaceError>(
                InterfaceError::InvalidAppletNumber,
            ),
            r is Ok ==> r->Ok_0.applet_number() == app_num,
            r is Ok ==> r->Ok_0.separator_kind() == separator_type,
            r is Ok ==> forall|i: int, j: int|
                0 <= i < 10 && 0 <= j < 9 ==> r->Ok_0.grid_cell(i, j) == 0,
            r is Ok ==> forall|c: int| 0 <= c < 9 ==> r->Ok_0.bar_array()@[c] == 0,
    {
        if app_num > 3 {
            return Err(InterfaceError::InvalidAppletNumber);
        }
        Ok(AppletInterface {
            app_num,
            grid: [[0u8; 9]; 10],
            separator_type,
            separator: [0u8; 9],
        })
    }

    /// Replace the whole grid mirror. Pure local mutation; nothing is sent.
    pub fn set_grid(&mut self, array: [[u8; 9]; 10])
        ensures
            final(self).grid_matrix() == array,
            final(self).applet_number() == old(self).applet_number(),
            final(self).separator_kind() == old(self).separator_kind(),
            final(self).bar_array() == old(self).bar_array(),
    {
        self.grid = array;
    }

    /// Set one grid mirror cell: `x` is the column, `y` the row. Pure
    /// local mutation with bounds checks; the row check comes first, and
    /// each bound failure has its own error. Nothing is sent.
    pub fn set_point(&mut self, x: usize, y: usize, value: u8) -> (r: Result<(), InterfaceError>)
        ensures
            r is Ok <==> (y < 10 && x < 9),
            y >= 10 ==> r == Err::<(), InterfaceError>(InterfaceError::InvalidRowIndex),
            y < 10 && x >= 9 ==> r == Err::<(), InterfaceError>(InterfaceError::InvalidColumnIndex),
            r is Err ==> *final(self) == *old(self),
            r is Ok ==> final(self).grid_cell(y as int, x as int) == value,
            r is Ok ==> forall|i: int, j: int|
                0 <= i < 10 && 0 <= j < 9 && !(i == y && j == x)
                    ==> final(self).grid_cell(i, j) == old(self).grid_cell(i, j),
            final(self).applet_number() == old(self).applet_number(),
            final(self).separator_kind() == old(self).separator_kind(),
            final(self).bar_array() == old(self).bar_array(),
    {
        if y >= 10 {
            return Err(InterfaceError::InvalidRowIndex);
        }
        if x >= 9 {
            return Err(InterfaceError::InvalidColumnIndex);
        }
        let mut row: [u8; 9] = self.grid[y];
        row[x] = value;
        self.grid[y] = row;
        Ok(())
    }

    /// Read the grid mirror.
    pub fn get_grid(&self) -> (r: &[[u8; 9]; 10])
        ensures
            *r == self.grid_matrix(),
    {
        &self.grid
    }

    /// Replace the separator mirror. Pure local mutation, and deliberately
    /// without a separator-kind check: the kind is checked at write time,
    /// mirroring the wire protocol's own deferred validation.
    pub fn set_bar(&mut self, array: [u8; 9])
        ensures
            final(self).bar_array() == array,
            final(self).applet_number() == old(self).applet_number(),
            final(self).separator_kind() == old(self).separator_kind(),
            final(self).grid_matrix() == old(self).grid_matrix(),
    {
        self.separator = array;
    }

    /// Read the separator mirror.
    pub fn get_bar(&self) -> (r: &[u8; 9])
        ensures
            *r == self.bar_array(),
    {
        &self.separator
    }

    /// The CreateApplet command of the handshake: one parameter byte, the
    /// separator kind's wire ordinal.
    pub fn create_command(&self) -> (c: Command)
        ensures
            c.opcode == Opcode::CreateApplet,
            c.app_num == self.applet_number(),
            c.parameters@ == seq![separator_ordinal(self.separator_kind())],
    {
        let mut parameters: Vec<u8> = Vec::new();
        parameters.push(separator_value(self.separator_type));
        assert(parameters@ =~= seq![separator_ordinal(self.separator_kind())]);
        Command { opcode: Opcode::CreateApplet, app_num: self.app_num, parameters }
    }

    /// The UpdateGrid command for the current grid mirror: the full grid,
    /// row-major, 90 parameter bytes.
    pub fn grid_command(&self) -> (c: Command)
        ensures
            c.opcode == Opcode::UpdateGrid,
            c.app_num == self.applet_number(),
            c.parameters@ == self.grid_row_major(),
    {
        let mut parameters: Vec<u8> = Vec::new();
        let mut i: usize = 0;
        while i < 10
            invariant
                i <= 10,
                parameters@.len() == 9 * i,
                forall|k: int| 0 <= k < parameters@.len()
                    ==> parameters@[k] == self.grid@[k / 9]@[k % 9],
            decreases 10 - i,
        {
            let mut j: usize = 0;
            while j < 9
                invariant
                    i < 10,
                    j <= 9,
                    parameters@.len() == 9 * i + j,
                    forall|k: int| 0 <= k < parameters@.len()
                        ==> parameters@[k] == self.grid@[k / 9]@[k % 9],
                decreases 9 - j,
            {
                parameters.push(self.grid[i][j]);
                proof {
                    assert((9 * (i as int) + j) / 9 == i && (9 * (i as int) + j) % 9 == j)
                        by (nonlinear_arith)
                        requires i < 10 && j < 9;
                }
                j = j + 1;
            }
            i = i + 1;
        }
        assert(parameters@ =~= self.grid_row_major());
        Command { opcode: Opcode::UpdateGrid, app_num: self.app_num, parameters }
    }

    /// The UpdateBar command for the current separator mirror, or the
    /// local input-validation failure when the separator kind is not
    /// Variable: for the three board-rendered kinds the write is rejected
    /// here, before any byte could reach the wire.
    pub fn bar_command(&self) -> (r: Result<Command, InterfaceError>)
        ensures
            r is Ok <==> self.separator_kind() == Separator::Variable,
            self.separator_kind() != Separator::Variable ==> r == Err::<Command, InterfaceError>(
                InterfaceError::SeparatorNotVariable,
            ),
            r is Ok ==> r->Ok_0.opcode == Opcode::UpdateBar,
            r is Ok ==> r->Ok_0.app_num == self.applet_number(),
            r is Ok ==> r->Ok_0.parameters@ == self.bar_array()@,
    {
        match self.separator_type {
            Separator::Variable => {},
            _ => {
                return Err(InterfaceError::SeparatorNotVariable);
            },
        }
        let mut parameters: Vec<u8> = Vec::new();
        let mut i: usize = 0;
        while i < 9
            invariant
                i <= 9,
                parameters@ == self.separator@.take(i as int),
            decreases 9 - i,
        {
            parameters.push(self.separator[i]);
            assert(parameters@ =~= self.separator@.take(i + 1 as int));
            i = i + 1;
        }
        assert(parameters@ =~= self.separator@);
        Ok(Command { opcode: Opcode::UpdateBar, app_num: self.app_num, parameters })
    }

    /// The handshake's wire bytes: the encoded CreateApplet command.
    pub fn create_message(&self) -> (r: Vec<u8>)
        ensures
            r@ == command_json(
                Opcode::CreateApplet,
                self.applet_number(),
                seq![separator_ordinal(self.separator_kind())],
            ),
    {
        let c = self.create_command();
        encode_command(&c)
    }

    /// The wire bytes of an UpdateGrid write of the current grid mirror.
    pub fn grid_message(&self) -> (r: Vec<u8>)
        ensures
            r@ == command_json(Opcode::UpdateGrid, self.applet_number(), self.grid_row_major()),
    {
        let c = self.grid_command();
        encode_command(&c)
    }

    /// The wire bytes of an UpdateBar write of the current separator
    /// mirror, or the local failure when the separator kind is not
    /// Variable.
    pub fn bar_message(&self) -> (r: Result<Vec<u8>, InterfaceError>)
        ensures
            r is Ok <==> self.separator_kind() == Separator::Variable,
            self.separator_kind() != Separator::Variable ==> r == Err::<Vec<u8>, InterfaceError>(
                InterfaceError::SeparatorNotVariable,
            ),
            r is Ok ==> r->Ok_0@ == command_json(
                Opcode::UpdateBar,
                self.applet_number(),
                self.bar_array()@,
            ),
    {
        match self.bar_command() {
            Ok(c) => Ok(encode_command(&c)),
            Err(e) => Err(e),
        }
    }
}

} // verus!
