//! The error descriptor and the error mapper.
//!
//! A status code in the driver-local reserved range is resolved from a fixed
//! local table without touching the native layer. Any other code is described
//! by the native "get last error" call, whose outcome (a size probe, a fill
//! status and the fetched text) is classified here.

use vstd::prelude::*;
use vstd::string::StringExecFns;
use crate::codes::{spec_is_driver_local, is_driver_local, ERR_UTF8_FROM_NATIVE};
use crate::text::{spec_decimal_i32, i32_to_string};

verus! {

/// An error arising during communication with the database: a status code
/// paired with a human-readable message.
#[derive(Debug)]
pub struct MimerError {
    pub error_code: i32,
    pub error_message: String,
}

/// The message of the fixed local table for each driver-local code; codes
/// outside the table describe themselves as unknown.
pub open spec fn spec_local_message(ec: int) -> Seq<char> {
    if ec == -14006 {
        "Login failure"@
    } else if ec == -18500 {
        "Database name not found in SQLHOSTS file"@
    } else if ec == -24101 {
        "An illegal sequence of API calls was detected"@
    } else if ec == -21028 {
        "Failed to do a LOCAL connection to the server for database <%>"@
    } else if ec == -26001 {
        "Error converting from utf-8 vector of bytes to String"@
    } else if ec == -26002 {
        "Invalid session pointer was returned from C API"@
    } else if ec == -26003 {
        "Connection is dropped"@
    } else if ec == -26004 {
        "Statement is dropped"@
    } else if ec == -26005 {
        "Handle is NULL"@
    } else if ec == -26006 {
        "Wrong number of parameters"@
    } else if ec == -26007 {
        "Could not convert UTF-8 string to CString"@
    } else if ec == -26100 {
        "Failed to get handle, handle is not a connection or statement"@
    } else if ec == -26200 {
        "Unsupported type conversion between MimerDatatype and Rust type"@
    } else if ec == -26201 {
        "Unsupported type in Row::get_type()"@
    } else if ec == -26203 {
        "Invalid parameter type for MimerDatatype-variant"@
    } else if ec == -26999 {
        "Rust error"@
    } else {
        "Unknown error"@
    }
}

impl MimerError {
    /// Builds an error descriptor from a driver-local code, using the fixed
    /// local table. Codes outside the table carry the unknown-error message.
    pub fn mimer_error_from_code(ec: i32) -> (r: MimerError)
        ensures
            r.error_code == ec,
            r.error_message@ == spec_local_message(ec as int),
    {
        let em: String = match ec {
            -14006 => String::from_str("Login failure"),
            -18500 => String::from_str("Database name not found in SQLHOSTS file"),
            -24101 => String::from_str("An illegal sequence of API calls was detected"),
            -21028 => String::from_str(
                "Failed to do a LOCAL connection to the server for database <%>",
            ),
            -26001 => String::from_str("Error converting from utf-8 vector of bytes to String"),
            -26002 => String::from_str("Invalid session pointer was returned from C API"),
            -26003 => String::from_str("Connection is dropped"),
            -26004 => String::from_str("Statement is dropped"),
            -26005 => String::from_str("Handle is NULL"),
            -26006 => String::from_str("Wrong number of parameters"),
            -26007 => String::from_str("Could not convert UTF-8 string to CString"),
            -26100 => String::from_str(
                "Failed to get handle, handle is not a connection or statement",
            ),
            -26200 => String::from_str(
                "Unsupported type conversion between MimerDatatype and Rust type",
            ),
            -26201 => String::from_str("Unsupported type in Row::get_type()"),
            -26203 => String::from_str("Invalid parameter type for MimerDatatype-variant"),
            -26999 => String::from_str("Rust error"),
            _ => String::from_str("Unknown error"),
        };
        MimerError { error_code: ec, error_message: em }
    }

    /// What a full description resolves to, given the status code to
    /// describe, whether a live handle was available, and the outcome of the
    /// native "get last error" call (a size probe, a fill status, the native
    /// code it reported and the fetched text, `None` where the text was not
    /// valid UTF-8).
    pub open spec fn spec_describe(
        error_code: i32,
        handle: Result<(), i32>,
        probe: i32,
        fill: i32,
        native_code: i32,
        text: Option<String>,
    ) -> (i32, Seq<char>) {
        if spec_is_driver_local(error_code) {
            (error_code, spec_local_message(error_code as int))
        } else if handle is Err {
            (handle->Err_0, spec_local_message(handle->Err_0 as int))
        } else if probe < 0 {
            (probe, spec_local_message(probe as int))
        } else if fill < 0 {
            (fill, spec_local_message(fill as int))
        } else if text is None {
            (ERR_UTF8_FROM_NATIVE, spec_local_message(ERR_UTF8_FROM_NATIVE as int))
        } else {
            (native_code, text->0@)
        }
    }

    /// Describes a status code.
    ///
    /// A driver-local code is resolved from the local table and the native
    /// outcome is ignored. Otherwise the outcome of the native error fetch is
    /// classified: a failure at any step is itself described from the local
    /// table, and a fetched text is paired with the native code it came with.
    pub fn describe(
        error_code: i32,
        handle: Result<(), i32>,
        probe: i32,
        fill: i32,
        native_code: i32,
        text: Option<String>,
    ) -> (r: MimerError)
        ensures
            (r.error_code, r.error_message@) == Self::spec_describe(
                error_code,
                handle,
                probe,
                fill,
                native_code,
                text,
            ),
    {
        if is_driver_local(error_code) {
            return MimerError::mimer_error_from_code(error_code);
        }
        let ec = match handle {
            Ok(u) => u,
            Err(ec) => {
                return MimerError::mimer_error_from_code(ec);
            },
        };
        if probe < 0 {
            return MimerError::mimer_error_from_code(probe);
        }
        if fill < 0 {
            return MimerError::mimer_error_from_code(fill);
        }
        match text {
            Some(message) => MimerError { error_code: native_code, error_message: message },
            None => MimerError::mimer_error_from_code(ERR_UTF8_FROM_NATIVE),
        }
    }

    /// The error code of this descriptor.
    pub fn get_error_code(&self) -> (r: i32)
        ensures
            r == self.error_code,
    {
        self.error_code
    }

    /// The message of this descriptor.
    pub fn get_error_message(&self) -> (r: &String)
        ensures
            r == &self.error_message,
    {
        &self.error_message
    }

    /// Renders the descriptor as one line of text.
    pub fn to_text(&self) -> (s: String)
        ensures
            s@ == "MimerError: "@ + spec_decimal_i32(self.error_code as int) + ", "@
                + self.error_message@,
    {
        proof {
            reveal_strlit("MimerError: ");
            reveal_strlit(", ");
        }
        let mut s = String::from_str("MimerError: ");
        let code = i32_to_string(self.error_code);
        s.append(code.as_str());
        s.append(", ");
        s.append(self.error_message.as_str());
        proof {
            assert(s@ =~= "MimerError: "@ + spec_decimal_i32(self.error_code as int) + ", "@
                + self.error_message@);
        }
        s
    }
}

} // verus!
