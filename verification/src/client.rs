//! The registry record of a device.

use vstd::prelude::*;
use vstd::string::StringExecFns;
use crate::db::{DBManager, DbError};
use crate::text::owned;

verus! {

/// A registered device. Times are microseconds since the epoch.
#[derive(Debug)]
pub struct Client {
    pub id: String,
    pub name: Option<String>,
    pub avatar: Option<String>,
    pub auto_message_clean: Option<i32>,
    pub created_at: Option<i64>,
    pub updated_at: Option<i64>,
}

impl Clone for Client {
    fn clone(&self) -> (copy: Self)
        ensures
            copy == *self,
    {
        Client {
            id: self.id.clone(),
            name: match &self.name {
                Some(n) => Some(n.clone()),
                None => None,
            },
            avatar: match &self.avatar {
                Some(a) => Some(a.clone()),
                None => None,
            },
            auto_message_clean: self.auto_message_clean,
            created_at: self.created_at,
            updated_at: self.updated_at,
        }
    }
}

/// A value that takes the place of a `?` in a statement.
#[derive(Debug)]
pub enum Bound {
    Text(String),
    Number(i32),
}

/// An SQL statement with the values for its `?` marks, in their order.
#[derive(Debug)]
pub struct Statement {
    pub sql: String,
    pub values: Vec<Bound>,
}

/// The assignment of a `?` mark to `column`, if the update names the
/// column, with a comma in front where an assignment went before.
pub open spec fn assignment(named: bool, column: Seq<char>, first: bool) -> Seq<char> {
    if !named {
        Seq::empty()
    } else if first {
        column + " = ?"@
    } else {
        ", "@ + column + " = ?"@
    }
}

impl Client {
    /// The statement that updates the stored record of the device with the
    /// fields that the record names: one assignment for each named field,
    /// in the order name, avatar, retention.
    pub open spec fn update_sql(self) -> Seq<char> {
        "UPDATE clients SET "@ + assignment(self.name is Some, "name"@, true) + assignment(
            self.avatar is Some,
            "avatar"@,
            self.name is None,
        ) + assignment(
            self.auto_message_clean is Some,
            "auto_message_clean"@,
            self.name is None && self.avatar is None,
        ) + " WHERE id = ?"@
    }

    /// The values for the `?` marks of `update_sql`: the named fields in
    /// their order, then the id.
    pub open spec fn update_values(self) -> Seq<Bound> {
        (match self.name {
            Some(name) => seq![Bound::Text(name)],
            None => Seq::empty(),
        }) + (match self.avatar {
            Some(avatar) => seq![Bound::Text(avatar)],
            None => Seq::empty(),
        }) + (match self.auto_message_clean {
            Some(days) => seq![Bound::Number(days)],
            None => Seq::empty(),
        }) + seq![Bound::Text(self.id)]
    }

    /// Whether the record names a field to update.
    pub open spec fn names_update(self) -> bool {
        self.name is Some || self.avatar is Some || self.auto_message_clean is Some
    }

    /// The stored record after the fields that `self` names were written
    /// into it at the time `now`.
    pub open spec fn updated(self, stored: Client, now: i64) -> Client {
        Client {
            id: stored.id,
            name: if self.name is Some {
                self.name
            } else {
                stored.name
            },
            avatar: if self.avatar is Some {
                self.avatar
            } else {
                stored.avatar
            },
            auto_message_clean: if self.auto_message_clean is Some {
                self.auto_message_clean
            } else {
                stored.auto_message_clean
            },
            created_at: stored.created_at,
            updated_at: Some(now),
        }
    }

    /// The record as it is stored on registration at the time `now`: id,
    /// name and avatar are taken over.
    pub open spec fn registered(self, now: i64) -> Client {
        Client {
            id: self.id,
            name: self.name,
            avatar: self.avatar,
            auto_message_clean: None,
            created_at: Some(now),
            updated_at: Some(now),
        }
    }

    /// Whether the record names a field to update.
    pub fn has_update(&self) -> (named: bool)
        ensures
            named == self.names_update(),
    {
        self.name.is_some() || self.avatar.is_some() || self.auto_message_clean.is_some()
    }

    /// The statement that writes the fields that the record names into
    /// the stored record of the same id, with its values. A record that
    /// names no field is refused with `NoFields`.
    pub fn patch_statement(&self) -> (statement: Result<Statement, DbError>)
        ensures
            !self.names_update() ==> statement == Err::<Statement, DbError>(DbError::NoFields),
            self.names_update() ==> {
                &&& statement matches Ok(s)
                &&& s.sql@ == self.update_sql()
                &&& s.values@ == self.update_values()
            },
    {
        let mut sql = owned("UPDATE clients SET ");
        let mut values: Vec<Bound> = Vec::new();
        let mut needs_comma = false;
        if let Some(name) = &self.name {
            sql.append("name");
            sql.append(" = ?");
            values.push(Bound::Text(name.clone()));
            needs_comma = true;
        }
        if let Some(avatar) = &self.avatar {
            if needs_comma {
                sql.append(", ");
            }
            sql.append("avatar");
            sql.append(" = ?");
            values.push(Bound::Text(avatar.clone()));
            needs_comma = true;
        }
        if let Some(days) = self.auto_message_clean {
            if needs_comma {
                sql.append(", ");
            }
            sql.append("auto_message_clean");
            sql.append(" = ?");
            values.push(Bound::Number(days));
            needs_comma = true;
        }
        if !needs_comma {
            return Err(DbError::NoFields);
        }
        sql.append(" WHERE id = ?");
        values.push(Bound::Text(self.id.clone()));
        assert(sql@ =~= self.update_sql());
        assert(values@ =~= self.update_values());
        Ok(Statement { sql, values })
    }

    /// The device registered under `id`, if there is one.
    pub fn get_by_id(db: &DBManager, id: &str) -> (found: Result<Option<Client>, DbError>)
        requires
            db.wf(),
        ensures
            !db.ready() ==> found == Err::<Option<Client>, DbError>(DbError::NotInitialized),
            db.ready() ==> found == Ok::<Option<Client>, DbError>(db.devices().get(id@)),
    {
        db.get_device(id)
    }

    /// Registers the device at the time `now` and returns the stored record.
    /// An id that is registered already is refused with `Conflict`.
    pub fn create(&self, db: &mut DBManager, now: i64) -> (stored: Result<Client, DbError>)
        requires
            old(db).wf(),
        ensures
            final(db).wf(),
            final(db).ready() == old(db).ready(),
            final(db).messages() == old(db).messages(),
            final(db).cursors() == old(db).cursors(),
            !old(db).ready() ==> stored == Err::<Client, DbError>(DbError::NotInitialized),
            old(db).ready() && old(db).devices().contains_key(self.id@) ==> stored == Err::<
                Client,
                DbError,
            >(DbError::Conflict),
            old(db).ready() && !old(db).devices().contains_key(self.id@) ==> stored == Ok::<
                Client,
                DbError,
            >(self.registered(now)),
            final(db).devices() == match stored {
                Ok(c) => old(db).devices().insert(self.id@, c),
                Err(_) => old(db).devices(),
            },
    {
        db.insert_device(self, now)
    }

    /// Writes the fields that the record names into the stored record of the
    /// same id. A record that names no field is refused with `NoFields`; an
    /// id that is not registered changes nothing.
    pub fn patch(&self, db: &mut DBManager, now: i64) -> (done: Result<(), DbError>)
        requires
            old(db).wf(),
        ensures
            final(db).wf(),
            final(db).ready() == old(db).ready(),
            final(db).messages() == old(db).messages(),
            final(db).cursors() == old(db).cursors(),
            !old(db).ready() ==> done == Err::<(), DbError>(DbError::NotInitialized),
            old(db).ready() && !self.names_update() ==> done == Err::<(), DbError>(
                DbError::NoFields,
            ),
            old(db).ready() && self.names_update() ==> done is Ok,
            final(db).devices() == if done is Ok && old(db).devices().contains_key(self.id@) {
                old(db).devices().insert(self.id@, self.updated(old(db).devices()[self.id@], now))
            } else {
                old(db).devices()
            },
    {
        if !db.is_ready() {
            return Err(DbError::NotInitialized);
        }
        if !self.has_update() {
            return Err(DbError::NoFields);
        }
        db.update_device(self, now)
    }
}

} // verus!
