//! The local database: where it lives and the one migration that lays out
//! its tables.

use vstd::prelude::*;
use vstd::string::*;

verus! {

/// The version that the database's layout has once the migration has run.
pub const SCHEMA_VERSION: i64 = 1;

/// The name of the database's file inside the application's data directory.
pub const DATABASE_NAME: &'static str = "iptv_data.db";

/// What the migration is called in the record of applied migrations.
pub const SCHEMA_DESCRIPTION: &'static str = "create account, categories and items tables";

/// The statements that create the tables `account`, `categories` and `items`.
/// An item names its category by `category_id`, a foreign key into
/// `categories`. The text is kept character for character: a database that
/// has run it remembers it by a checksum.
pub const SCHEMA_SCRIPT: &'static str = "
                CREATE TABLE account (
                    id INTEGER PRIMARY KEY AUTOINCREMENT,
                    username TEXT NOT NULL,
                    password TEXT NOT NULL,
                    server TEXT NOT NULL
                );

                CREATE TABLE categories (
                    id INTEGER PRIMARY KEY AUTOINCREMENT,
                    name TEXT NOT NULL,
                    type TEXT NOT NULL
                );

                CREATE TABLE items (
                    id INTEGER PRIMARY KEY AUTOINCREMENT,
                    name TEXT NOT NULL,
                    logo TEXT,
                    url TEXT NOT NULL,
                    category_id INTEGER NOT NULL,
                    FOREIGN KEY (category_id) REFERENCES categories (id)
                );
            ";

/// The direction of a migration.
#[derive(Clone, Copy, Debug, PartialEq, Eq, Structural)]
pub enum MigrationKind {
    Up,
    Down,
}

/// One step in the history of the database's layout.
#[derive(Clone, Copy, Debug)]
pub struct Migration {
    pub version: i64,
    pub description: &'static str,
    pub sql: &'static str,
    pub kind: MigrationKind,
}

/// A migration as a plain value.
pub struct MigrationView {
    pub version: int,
    pub description: Seq<char>,
    pub sql: Seq<char>,
    pub kind: MigrationKind,
}

impl View for Migration {
    type V = MigrationView;

    open spec fn view(&self) -> MigrationView {
        MigrationView {
            version: self.version as int,
            description: self.description@,
            sql: self.sql@,
            kind: self.kind,
        }
    }
}

/// The one migration there is: it brings an empty database to
/// `SCHEMA_VERSION` by running `SCHEMA_SCRIPT`.
pub open spec fn initial_migration() -> MigrationView {
    MigrationView {
        version: SCHEMA_VERSION as int,
        description: SCHEMA_DESCRIPTION@,
        sql: SCHEMA_SCRIPT@,
        kind: MigrationKind::Up,
    }
}

/// The address of the database: the scheme `sqlite:` and the file's name.
pub open spec fn database_address() -> Seq<char> {
    "sqlite:"@ + DATABASE_NAME@
}

/// The address under which the database is opened.
pub fn database_url() -> (url: String)
    ensures
        url@ == database_address(),
{
    let mut url = String::from_str("sqlite:");
    url.append(DATABASE_NAME);
    url
}

/// The migrations of the database, in the order in which they apply.
pub fn migrations() -> (list: Vec<Migration>)
    ensures
        list@.len() == 1,
        list@[0]@ == initial_migration(),
{
    let mut list: Vec<Migration> = Vec::new();
    list.push(
        Migration {
            version: SCHEMA_VERSION,
            description: SCHEMA_DESCRIPTION,
            sql: SCHEMA_SCRIPT,
            kind: MigrationKind::Up,
        },
    );
    list
}

} // verus!
