//! The shared configuration document.
//!
//! One TOML file is shared by everything that can be configured. This module
//! finds the part that each reads; turning that part into a configuration is up
//! to the reader.

use toml::{Table, Value};
use vstd::prelude::*;

use crate::fault::IoError;
use crate::text::{joined, opt_text};

verus! {

/// `toml::Value`.
#[verifier::external_type_specification]
#[verifier::external_body]
pub struct ExValue(toml::Value);

/// `toml::map::Map`, of which `toml::Table` is an instance.
#[verifier::external_type_specification]
#[verifier::external_body]
#[verifier::reject_recursive_types(K)]
#[verifier::reject_recursive_types(V)]
pub struct ExTomlMap<K, V>(toml::map::Map<K, V>);

/// The entries of a table.
pub uninterp spec fn table_entries(table: Table) -> Map<Seq<char>, Value>;

/// The table that a value is, if it is one.
pub uninterp spec fn value_table(value: Value) -> Option<Table>;

/// The text that a value is, if it is one.
pub uninterp spec fn value_text(value: Value) -> Option<Seq<char>>;

/// The value that a document denotes or, where it is not TOML, a description of
/// what is wrong with it.
pub uninterp spec fn document_value(text: Seq<char>) -> Result<Value, Seq<char>>;

/// `toml::from_str`: the value that a document denotes or, where it is not
/// TOML, a description of what is wrong with it.
#[verifier::external_body]
fn parse_document(text: &str) -> (value: Result<Value, String>)
    ensures
        document_value(text@) == (match value {
            Ok(v) => Ok::<Value, Seq<char>>(v),
            Err(e) => Err(e@),
        }),
{
    toml::from_str(text).map_err(|err| err.to_string())
}

/// `toml::Value::as_table`: a copy of the table that a value is, if it is one.
#[verifier::external_body]
fn as_table(value: &Value) -> (table: Option<Table>)
    ensures
        table == value_table(*value),
{
    value.as_table().cloned()
}

/// `toml::Value::as_str`: a copy of the text that a value is, if it is one.
#[verifier::external_body]
fn as_text(value: &Value) -> (text: Option<String>)
    ensures
        opt_text(text) == value_text(*value),
{
    value.as_str().map(str::to_owned)
}

/// `toml::Value::Table`: a copy of a table, as a value.
#[verifier::external_body]
fn from_table(table: &Table) -> (value: Value)
    ensures
        value_table(value) == Some(*table),
{
    Value::Table(table.clone())
}

/// `toml::map::Map::get`: a copy of the entry of a table with this name, if
/// there is one.
#[verifier::external_body]
fn get_entry(table: &Table, name: &str) -> (value: Option<Value>)
    ensures
        value == (if table_entries(*table).dom().contains(name@) {
            Some(table_entries(*table)[name@])
        } else {
            None
        }),
{
    table.get(name).cloned()
}

/// The entry of a table with this name, if there is one.
pub open spec fn entry(table: Table, name: Seq<char>) -> Option<Value> {
    if table_entries(table).dom().contains(name) {
        Some(table_entries(table)[name])
    } else {
        None
    }
}

/// The text of the entry of a table with this name, if there is one.
pub open spec fn text_entry(table: Table, name: Seq<char>) -> Option<Seq<char>> {
    match entry(table, name) {
        Some(value) => value_text(value),
        None => None,
    }
}

/// A copy of the text of the entry of a table with this name, if there is one.
pub fn table_text(table: &Table, name: &str) -> (text: Option<String>)
    ensures
        opt_text(text) == text_entry(*table, name@),
{
    match get_entry(table, name) {
        Some(value) => as_text(&value),
        None => None,
    }
}

/// Why the configuration cannot be used.
#[derive(Debug)]
pub enum ConfigError {
    /// The configuration file could not be read.
    Io(IoError),
    /// The document is not TOML, or a part of it does not have the right form.
    Toml(String),
    /// The shape of the document is invalid.
    Structure(String),
    /// A part of the document was rejected by its reader.
    Plugin(String),
}

impl ConfigError {
    /// Whether `text` describes this error.
    pub open spec fn described_by(self, text: Seq<char>) -> bool {
        match self {
            ConfigError::Io(e) => text == "cannot read configuration: "@ + e.message@,
            ConfigError::Toml(e) => text == "invalid configuration: "@ + e@,
            ConfigError::Structure(e) => text == "invalid configuration structure: "@ + e@,
            ConfigError::Plugin(e) => text == "invalid plugin configuration: "@ + e@,
        }
    }

    /// A description for the user.
    pub fn message(&self) -> (text: String)
        ensures
            self.described_by(text@),
    {
        match self {
            ConfigError::Io(e) => joined("cannot read configuration: ", e.message.as_str()),
            ConfigError::Toml(e) => joined("invalid configuration: ", e.as_str()),
            ConfigError::Structure(e) => joined("invalid configuration structure: ", e.as_str()),
            ConfigError::Plugin(e) => joined("invalid plugin configuration: ", e.as_str()),
        }
    }
}

/// A configuration document.
#[derive(Debug)]
pub struct ConfigDocument {
    /// Its root table.
    pub root: Table,
}

impl Clone for ConfigDocument {
    fn clone(&self) -> (copy: Self)
        ensures
            copy.root == self.root,
    {
        ConfigDocument { root: as_table(&self.root_value()).unwrap() }
    }
}

impl ConfigDocument {
    /// Parses a document. It is accepted exactly when it is TOML and its root
    /// is a table.
    pub fn from_toml_str(text: &str) -> (document: Result<ConfigDocument, ConfigError>)
        ensures
            match document_value(text@) {
                Err(e) => document matches Err(ConfigError::Toml(text)) && text@ == e,
                Ok(value) => match value_table(value) {
                    Some(root) => document matches Ok(d) && d.root == root,
                    None => document matches Err(ConfigError::Structure(e)) && e@
                        == "configuration root must be a TOML table"@,
                },
            },
    {
        let value = match parse_document(text) {
            Ok(value) => value,
            Err(err) => {
                return Err(ConfigError::Toml(err));
            },
        };
        match as_table(&value) {
            Some(root) => Ok(ConfigDocument { root }),
            None => Err(
                ConfigError::Structure("configuration root must be a TOML table".to_owned()),
            ),
        }
    }

    /// Wraps a root table that was parsed already.
    pub fn from_table(root: Table) -> (document: ConfigDocument)
        ensures
            document.root == root,
    {
        ConfigDocument { root }
    }

    /// The whole document as a value.
    pub fn root_value(&self) -> (value: Value)
        ensures
            value_table(value) == Some(self.root),
    {
        from_table(&self.root)
    }

    /// The root table.
    pub fn root_table(&self) -> (root: &Table)
        ensures
            *root == self.root,
    {
        &self.root
    }

    /// A section of the document, if it is there.
    pub fn section_value(&self, name: &str) -> (value: Option<Value>)
        ensures
            value == entry(self.root, name@),
    {
        get_entry(&self.root, name)
    }

    /// The part of the document that a configuration is read from: the section
    /// that it names, which has to be there, or the whole document.
    pub fn part(&self, section: Option<&str>) -> (value: Result<Value, ConfigError>)
        ensures
            match section {
                None => value matches Ok(v) && value_table(v) == Some(self.root),
                Some(name) => match entry(self.root, name@) {
                    Some(v) => value == Ok::<Value, ConfigError>(v),
                    None => value matches Err(ConfigError::Structure(e)) && e@
                        == "configuration is missing ["@ + name@ + "] section"@,
                },
            },
    {
        match section {
            None => Ok(self.root_value()),
            Some(name) => match self.section_value(name) {
                Some(value) => Ok(value),
                None => {
                    let start = joined("configuration is missing [", name);
                    Err(ConfigError::Structure(joined(start.as_str(), "] section")))
                },
            },
        }
    }
}

/// The result of services that run independently of each other, once all of
/// them have stopped: the first failure in their order, if any failed.
pub fn services_result<E>(results: Vec<Result<(), E>>) -> (result: Result<(), E>)
    ensures
        match result {
            Ok(_) => forall|i: int| 0 <= i < results@.len() ==> #[trigger] results@[i] is Ok,
            Err(e) => exists|i: int|
                {
                    &&& 0 <= i < results@.len()
                    &&& #[trigger] results@[i] == Err::<(), E>(e)
                    &&& forall|j: int| 0 <= j < i ==> #[trigger] results@[j] is Ok
                },
        },
{
    let ghost all = results@;
    let mut results = results;
    let mut first: Option<E> = None;
    let ghost mut at: int = 0;
    assert(all.take(all.len() as int) =~= all);
    while results.len() > 0
        invariant
            results@ == all.take(results@.len() as int),
            results@.len() <= all.len(),
            match first {
                Some(e) => {
                    &&& results@.len() <= at < all.len()
                    &&& all[at] == Err::<(), E>(e)
                    &&& forall|j: int| results@.len() <= j < at ==> #[trigger] all[j] is Ok
                },
                None => forall|j: int| results@.len() <= j < all.len() ==> #[trigger] all[j] is Ok,
            },
        decreases results@.len(),
    {
        let ghost n = results@.len() - 1;
        let last = results.pop();
        proof {
            assert(all.take(n + 1)[n] == all[n]);
            assert(all.take(n + 1).drop_last() =~= all.take(n));
        }
        match last {
            Some(Err(err)) => {
                first = Some(err);
                proof {
                    at = n;
                }
            },
            _ => {},
        }
    }
    match first {
        Some(err) => {
            assert(all[at] == Err::<(), E>(err));
            Err(err)
        },
        None => Ok(()),
    }
}

// ---------------------------------------------------------------------------
// Laws
// ---------------------------------------------------------------------------

/// What the user is told of a configuration that cannot be used.
pub proof fn law_messages(err: ConfigError, text: String)
    requires
        call_ensures(ConfigError::message, (&err,), text),
    ensures
        err matches ConfigError::Io(e) ==> text@ == "cannot read configuration: "@ + e.message@,
        err matches ConfigError::Toml(e) ==> text@ == "invalid configuration: "@ + e@,
        err matches ConfigError::Structure(e)
            ==> text@ == "invalid configuration structure: "@ + e@,
        err matches ConfigError::Plugin(e) ==> text@ == "invalid plugin configuration: "@ + e@,
{
}

/// A configuration is read from the section that it names, which has to be there, or
/// from the whole document.
pub proof fn law_parts(
    document: ConfigDocument,
    name: &str,
    section: Option<Value>,
    part: Result<Value, ConfigError>,
    whole: Result<Value, ConfigError>,
)
    requires
        call_ensures(ConfigDocument::section_value, (&document, name), section),
        call_ensures(ConfigDocument::part, (&document, Some(name)), part),
        call_ensures(ConfigDocument::part, (&document, None), whole),
    ensures
        section matches Some(v) ==> part == Ok::<Value, ConfigError>(v),
        section is None ==> (part matches Err(ConfigError::Structure(e)) && e@
            == "configuration is missing ["@ + name@ + "] section"@),
        section is Some <==> table_entries(document.root).dom().contains(name@),
        section matches Some(v) ==> v == table_entries(document.root)[name@],
        whole matches Ok(v) && value_table(v) == Some(document.root),
{
}

/// A document is TOML whose root is a table, and its root is that table.
pub proof fn law_documents(
    text: &str,
    document: Result<ConfigDocument, ConfigError>,
    root: Table,
    wrapped: ConfigDocument,
    value: Value,
)
    requires
        call_ensures(ConfigDocument::from_toml_str, (text,), document),
        call_ensures(ConfigDocument::from_table, (root,), wrapped),
        call_ensures(ConfigDocument::root_value, (&wrapped,), value),
    ensures
        wrapped.root == root && value_table(value) == Some(root),
        document matches Ok(d) ==> (document_value(text@) matches Ok(v) && value_table(v) == Some(
            d.root,
        )),
        document matches Err(e) ==> {
            &&& document_value(text@) is Err ==> (e matches ConfigError::Toml(why) && why@
                == document_value(text@)->Err_0)
            &&& document_value(text@) is Ok ==> (e matches ConfigError::Structure(why) && why@
                == "configuration root must be a TOML table"@) && value_table(
                document_value(text@)->Ok_0,
            ) is None
        },
{
}

/// Services have succeeded where all of them have; otherwise the first one that
/// failed gives the result.
pub proof fn law_services_result<E>(results: Vec<Result<(), E>>, result: Result<(), E>, at: int)
    requires
        call_ensures(services_result::<E>, (results,), result),
    ensures
        result is Ok <==> forall|i: int|
            0 <= i < results@.len() ==> #[trigger] results@[i] is Ok,
        0 <= at < results@.len() && results@[at] is Err && (forall|i: int|
            0 <= i < at ==> #[trigger] results@[i] is Ok) ==> result is Err && result->Err_0
            == results@[at]->Err_0,
{
    if let Err(e) = result {
        let i = choose|i: int|
            {
                &&& 0 <= i < results@.len()
                &&& #[trigger] results@[i] == Err::<(), E>(e)
                &&& forall|j: int| 0 <= j < i ==> #[trigger] results@[j] is Ok
            };
        assert(results@[i] is Err);
        if 0 <= at < results@.len() && results@[at] is Err {
            if i < at {
                assert(results@[i] is Err);
            } else if at < i {
                assert(results@[at] is Ok);
            }
        }
    }
}

/// The text of an entry is there where the entry is and is a text.
pub proof fn law_table_text(table: Table, name: &str, text: Option<String>)
    requires
        call_ensures(table_text, (&table, name), text),
    ensures
        text is Some <==> table_entries(table).dom().contains(name@) && value_text(
            table_entries(table)[name@],
        ) is Some,
        text matches Some(t) ==> Some(t@) == value_text(table_entries(table)[name@]),
{
}

} // verus!
