//! What crosses the boundary to the host: the framed request, and the
//! host's answer with the result that it stands for.

use vstd::prelude::*;

verus! {

/// Where the host finds the database.
#[derive(Debug)]
pub struct DBConn {
    pub url: String,
    pub db_name: String,
}

/// A column of a record type.
pub trait Col {
    /// The column's name as it stands in a statement.
    fn sql_name(&self) -> String;
}

/// The host's answer to one statement, with data of the kind `D`.
#[derive(Debug)]
pub struct SqlRes<D> {
    pub ok: bool,
    pub msg: Option<String>,
    pub data: Option<D>,
}

/// Why a statement gave no data.
#[derive(Debug)]
pub enum SqlError {
    /// The host failed the statement, with its message.
    Host(String),
    /// The answer reports success and holds no data.
    MissingData,
    /// The answer reports failure and holds no message.
    MissingMessage,
}

impl<D> SqlRes<D> {
    /// The result that the answer stands for: its data where the host
    /// reports success, its message as the error where it reports failure.
    pub open spec fn outcome(self) -> Result<D, SqlError> {
        if self.ok {
            match self.data {
                Some(data) => Ok(data),
                None => Err(SqlError::MissingData),
            }
        } else {
            match self.msg {
                Some(msg) => Err(SqlError::Host(msg)),
                None => Err(SqlError::MissingMessage),
            }
        }
    }

    /// Turns the answer into the result that it stands for.
    pub fn into_result(self) -> (result: Result<D, SqlError>)
        ensures
            result == self.outcome(),
    {
        if self.ok {
            match self.data {
                Some(data) => Ok(data),
                None => Err(SqlError::MissingData),
            }
        } else {
            match self.msg {
                Some(msg) => Err(SqlError::Host(msg)),
                None => Err(SqlError::MissingMessage),
            }
        }
    }
}

impl SqlError {
    /// The error as a message: the host's own words where it gave any.
    pub open spec fn message(self) -> Seq<char> {
        match self {
            SqlError::Host(msg) => msg@,
            SqlError::MissingData => "the host reported success without data"@,
            SqlError::MissingMessage => "the host reported failure without a message"@,
        }
    }

    /// Renders the error as a message.
    pub fn to_string(&self) -> (out: String)
        ensures
            out@ == self.message(),
    {
        match self {
            SqlError::Host(msg) => msg.clone(),
            SqlError::MissingData => String::from_str("the host reported success without data"),
            SqlError::MissingMessage => String::from_str(
                "the host reported failure without a message",
            ),
        }
    }
}

/// Frames the JSON text of a request for the host: the text, then one NUL.
pub fn null_terminated(json: &str) -> (framed: String)
    ensures
        framed@ == json@.push('\0'),
{
    let mut framed = String::from_str(json);
    framed.push('\0');
    framed
}

} // verus!
