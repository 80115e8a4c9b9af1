//! Option enums shared by the driver's operations: cursor modes, scroll
//! directives, transaction modes and parameter modes, with their mappings to
//! the integer encodings of the native call-level interface.

use vstd::prelude::*;

verus! {

/// Cursor mode options, fixed when a statement is prepared.
#[derive(Clone, Copy, PartialEq, Eq, Structural, Debug)]
pub enum CursorMode {
    /// The result set is a single pass: each row is visited at most once.
    Forward,
    /// The cursor may be repositioned anywhere within the result set.
    Scrollable,
}

impl CursorMode {
    /// The integer encoding the native layer uses for this mode.
    pub fn to_c_int(&self) -> (r: i32)
        ensures
            r == self.spec_c_int(),
    {
        match self {
            CursorMode::Forward => 0,
            CursorMode::Scrollable => 1,
        }
    }

    /// The native integer encoding of each cursor mode.
    pub open spec fn spec_c_int(self) -> i32 {
        match self {
            CursorMode::Forward => 0,
            CursorMode::Scrollable => 1,
        }
    }
}

/// Scroll directives applied by a scrollable cursor's scroll operation.
#[derive(Clone, Copy, PartialEq, Eq, Structural, Debug)]
pub enum ScrollOption {
    /// Move to the next row.
    NEXT,
    /// Move to the previous row.
    PREVIOUS,
    /// Move by an offset relative to the current position.
    RELATIVE,
    /// Move to an absolute row number.
    ABSOLUTE,
    /// Move to the first row of the result set.
    FIRST,
    /// Move to the last row of the result set.
    LAST,
}

impl ScrollOption {
    /// The integer encoding the native layer uses for this directive.
    pub fn to_c_int(&self) -> (r: i32)
        ensures
            r == self.spec_c_int(),
    {
        match self {
            ScrollOption::NEXT => 1,
            ScrollOption::PREVIOUS => -1i32,
            ScrollOption::RELATIVE => 0,
            ScrollOption::ABSOLUTE => 1073741824,
            ScrollOption::FIRST => 1073741825,
            ScrollOption::LAST => -1073741825i32,
        }
    }

    /// The native integer encoding of each scroll directive.
    pub open spec fn spec_c_int(self) -> i32 {
        match self {
            ScrollOption::NEXT => 1,
            ScrollOption::PREVIOUS => -1i32,
            ScrollOption::RELATIVE => 0,
            ScrollOption::ABSOLUTE => 1073741824,
            ScrollOption::FIRST => 1073741825,
            ScrollOption::LAST => -1073741825i32,
        }
    }
}

/// Transaction mode options for an explicit transaction begin.
#[derive(Clone, Copy, PartialEq, Eq, Structural, Debug)]
pub enum TransactionMode {
    ReadOnly,
    ReadWrite,
}

impl TransactionMode {
    /// The integer encoding the native layer uses for this mode.
    pub fn to_c_int(&self) -> (r: i32)
        ensures
            r == self.spec_c_int(),
    {
        match self {
            TransactionMode::ReadOnly => 4,
            TransactionMode::ReadWrite => 0,
        }
    }

    /// The native integer encoding of each transaction mode.
    pub open spec fn spec_c_int(self) -> i32 {
        match self {
            TransactionMode::ReadOnly => 4,
            TransactionMode::ReadWrite => 0,
        }
    }
}

/// The two ways a transaction can end.
#[derive(Clone, Copy, PartialEq, Eq, Structural, Debug)]
pub enum EndTransactionMode {
    Rollback,
    Commit,
}

impl EndTransactionMode {
    /// The integer encoding the native layer uses for this end mode.
    pub fn to_c_int(&self) -> (r: i32)
        ensures
            r == self.spec_c_int(),
    {
        match self {
            EndTransactionMode::Rollback => 1,
            EndTransactionMode::Commit => 0,
        }
    }

    /// The native integer encoding of each end mode.
    pub open spec fn spec_c_int(self) -> i32 {
        match self {
            EndTransactionMode::Rollback => 1,
            EndTransactionMode::Commit => 0,
        }
    }
}

/// Input/output modes of a routine parameter.
#[derive(Clone, Copy, PartialEq, Eq, Structural, Debug)]
pub enum ParameterMode {
    IN,
    OUT,
    INOUT,
}

impl ParameterMode {
    /// The integer encoding the native layer uses for this parameter mode.
    pub fn to_c_int(&self) -> (r: i32)
        ensures
            r == self.spec_c_int(),
    {
        match self {
            ParameterMode::IN => 1,
            ParameterMode::OUT => 2,
            ParameterMode::INOUT => 3,
        }
    }

    /// The native integer encoding of each parameter mode.
    pub open spec fn spec_c_int(self) -> i32 {
        match self {
            ParameterMode::IN => 1,
            ParameterMode::OUT => 2,
            ParameterMode::INOUT => 3,
        }
    }

    /// What a parameter-mode query's status decodes to: the three documented
    /// encodings give the matching mode, anything else is passed through as
    /// an error code.
    pub open spec fn spec_from_c_int(rc: i32) -> Result<ParameterMode, i32> {
        if rc == 1 {
            Ok(ParameterMode::IN)
        } else if rc == 2 {
            Ok(ParameterMode::OUT)
        } else if rc == 3 {
            Ok(ParameterMode::INOUT)
        } else {
            Err(rc)
        }
    }

    /// Decodes the status a parameter-mode query returned.
    pub fn from_c_int(rc: i32) -> (r: Result<ParameterMode, i32>)
        ensures
            r == Self::spec_from_c_int(rc),
    {
        match rc {
            1 => Ok(ParameterMode::IN),
            2 => Ok(ParameterMode::OUT),
            3 => Ok(ParameterMode::INOUT),
            _ => Err(rc),
        }
    }
}

} // verus!
