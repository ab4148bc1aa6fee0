use vstd::prelude::*;

verus! {

/// Creates the `Users` table unless it is already there.
pub fn init_statement() -> (r: &'static str)
    ensures
        r@ == "CREATE TABLE IF NOT EXISTS Users (id SERIAL PRIMARY KEY, name TEXT NOT NULL, email TEXT NOT NULL UNIQUE);"@,
{
    "CREATE TABLE IF NOT EXISTS Users (id SERIAL PRIMARY KEY, name TEXT NOT NULL, email TEXT NOT NULL UNIQUE);"
}

/// Adds one row; `$1` is the name and `$2` the email.
pub fn insert_statement() -> (r: &'static str)
    ensures
        r@ == "INSERT INTO Users (name, email) VALUES ($1, $2)"@,
{
    "INSERT INTO Users (name, email) VALUES ($1, $2)"
}

/// Overwrites name (`$1`) and email (`$2`) of the row whose email is `$3`.
pub fn update_statement() -> (r: &'static str)
    ensures
        r@ == "UPDATE Users SET name=$1, email=$2 WHERE email=$3"@,
{
    "UPDATE Users SET name=$1, email=$2 WHERE email=$3"
}

/// Removes the row whose email is `$1`.
pub fn delete_statement() -> (r: &'static str)
    ensures
        r@ == "DELETE FROM Users WHERE email=$1"@,
{
    "DELETE FROM Users WHERE email=$1"
}

pub open spec fn reset_text() -> Seq<char> {
    "DROP TABLE Users; "@ + "CREATE TABLE IF NOT EXISTS Users (id SERIAL PRIMARY KEY, name TEXT NOT NULL, email TEXT NOT NULL UNIQUE);"@
        + " ALTER SEQUENCE Users_id_seq RESTART WITH 1;"@
}

/// Drops the table, creates it again and restarts the id sequence at 1.
pub fn reset_statement() -> (r: String)
    ensures
        r@ == reset_text(),
{
    let mut s = String::from_str("DROP TABLE Users; ");
    s.append(init_statement());
    s.append(" ALTER SEQUENCE Users_id_seq RESTART WITH 1;");
    s
}

/// The column lists a read may ask for.
#[derive(Clone, Copy, Debug, PartialEq, Eq, Structural)]
pub enum Projection {
    /// Every column of the table.
    AllColumns,
    /// `id`, `name` and `email`, in that order.
    IdNameEmail,
    Id,
    Name,
    Email,
}

pub open spec fn columns_text(p: Projection) -> Seq<char> {
    match p {
        Projection::AllColumns => "*"@,
        Projection::IdNameEmail => "id, name, email"@,
        Projection::Id => "id"@,
        Projection::Name => "name"@,
        Projection::Email => "email"@,
    }
}

impl Projection {
    /// The column list as it stands in a `SELECT`.
    pub fn columns(&self) -> (r: &'static str)
        ensures
            r@ == columns_text(*self),
    {
        match self {
            Projection::AllColumns => "*",
            Projection::IdNameEmail => "id, name, email",
            Projection::Id => "id",
            Projection::Name => "name",
            Projection::Email => "email",
        }
    }

    /// Whether rows read with this projection carry the `id` column.
    pub open spec fn has_id(self) -> bool {
        self is AllColumns || self is IdNameEmail || self is Id
    }

    /// Whether rows read with this projection carry the `name` column.
    pub open spec fn has_name(self) -> bool {
        self is AllColumns || self is IdNameEmail || self is Name
    }

    /// Whether rows read with this projection carry the `email` column.
    pub open spec fn has_email(self) -> bool {
        self is AllColumns || self is IdNameEmail || self is Email
    }

    pub fn includes_id(&self) -> (r: bool)
        ensures
            r == self.has_id(),
    {
        match self {
            Projection::AllColumns | Projection::IdNameEmail | Projection::Id => true,
            _ => false,
        }
    }

    pub fn includes_name(&self) -> (r: bool)
        ensures
            r == self.has_name(),
    {
        match self {
            Projection::AllColumns | Projection::IdNameEmail | Projection::Name => true,
            _ => false,
        }
    }

    pub fn includes_email(&self) -> (r: bool)
        ensures
            r == self.has_email(),
    {
        match self {
            Projection::AllColumns | Projection::IdNameEmail | Projection::Email => true,
            _ => false,
        }
    }
}

pub open spec fn select_text(p: Projection) -> Seq<char> {
    "SELECT "@ + columns_text(p) + " FROM Users"@
}

/// Reads every row, restricted to the columns of `p`.
///
/// The column list comes from a closed set of projections, never from
/// caller-supplied text.
pub fn select_statement(p: Projection) -> (r: String)
    ensures
        r@ == select_text(p),
{
    let mut s = String::from_str("SELECT ");
    s.append(p.columns());
    s.append(" FROM Users");
    s
}

} // verus!
