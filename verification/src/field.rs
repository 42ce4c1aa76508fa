use vstd::prelude::*;

verus! {

/// Identifiers of the articles table and of its columns.
#[derive(Debug, Clone, Copy, PartialEq, Eq, Structural)]
pub enum Articles {
    Table,
    Id,
    Slug,
}

/// The columns by which an article can be looked up.
#[derive(Debug, Clone, Copy, PartialEq, Eq, Structural)]
pub enum IndexedArticleField {
    Slug,
    Id,
}

impl IndexedArticleField {
    pub open spec fn field_name_spec(self) -> (Articles, Articles) {
        match self {
            IndexedArticleField::Slug => (Articles::Table, Articles::Slug),
            IndexedArticleField::Id => (Articles::Table, Articles::Id),
        }
    }

    /// The table and the column that this selector stands for.
    pub fn to_field_name(&self) -> (name: (Articles, Articles))
        ensures
            name == self.field_name_spec(),
    {
        match self {
            IndexedArticleField::Slug => (Articles::Table, Articles::Slug),
            IndexedArticleField::Id => (Articles::Table, Articles::Id),
        }
    }
}

/// The columns by which a user can be looked up: a closed set, so that no
/// caller-supplied text ever becomes part of a query.
#[derive(Debug, Clone, Copy, PartialEq, Eq, Structural)]
pub enum IndexedUserField {
    Email,
    Username,
    Id,
}

impl IndexedUserField {
    pub open spec fn column_spec(self) -> Seq<char> {
        match self {
            IndexedUserField::Email => "email"@,
            IndexedUserField::Username => "username"@,
            IndexedUserField::Id => "id"@,
        }
    }

    /// The one lookup statement, for this selector: the value sought is its
    /// only parameter, and the column comes from the fixed mapping.
    pub open spec fn select_statement_spec(self) -> Seq<char> {
        "SELECT id, email, username, password_hash, bio, image FROM users WHERE "@
            + self.column_spec() + " = $1"@
    }

    pub fn select_statement(&self) -> (text: String)
        ensures
            text@ == self.select_statement_spec(),
    {
        "SELECT id, email, username, password_hash, bio, image FROM users WHERE ".to_owned().concat(
            self.column(),
        ).concat(" = $1")
    }

    /// The column identifier of this selector.
    pub fn column(&self) -> (name: &'static str)
        ensures
            name@ == self.column_spec(),
    {
        match self {
            IndexedUserField::Email => "email",
            IndexedUserField::Username => "username",
            IndexedUserField::Id => "id",
        }
    }
}

/// The insert statement: email, username and password hash are its three
/// parameters, and it returns the persisted record.
pub fn insert_statement() -> (text: &'static str)
    ensures
        text@
            == "INSERT INTO users (email, username, password_hash) VALUES ($1, $2, $3) RETURNING id, email, username, password_hash, bio, image"@,
{
    "INSERT INTO users (email, username, password_hash) VALUES ($1, $2, $3) RETURNING id, email, username, password_hash, bio, image"
}

/// A lookup key: one indexed field together with the value sought in it.
#[derive(Debug, Clone)]
pub enum UserKey {
    Id(u128),
    Email(String),
    Username(String),
}

impl UserKey {
    pub open spec fn field_spec(self) -> IndexedUserField {
        match self {
            UserKey::Id(_) => IndexedUserField::Id,
            UserKey::Email(_) => IndexedUserField::Email,
            UserKey::Username(_) => IndexedUserField::Username,
        }
    }

    /// The field that this key is looked up in.
    pub fn field(&self) -> (f: IndexedUserField)
        ensures
            f == self.field_spec(),
    {
        match self {
            UserKey::Id(_) => IndexedUserField::Id,
            UserKey::Email(_) => IndexedUserField::Email,
            UserKey::Username(_) => IndexedUserField::Username,
        }
    }
}

/// No two selectors share a column.
pub proof fn columns_are_distinct(a: IndexedUserField, b: IndexedUserField)
    requires
        a != b,
    ensures
        a.column_spec() != b.column_spec(),
{
    reveal_strlit("email");
    reveal_strlit("username");
    reveal_strlit("id");
    assert("email"@.len() == 5);
    assert("username"@.len() == 8);
    assert("id"@.len() == 2);
}

} // verus!
