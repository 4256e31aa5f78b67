//! The introspection functions: constants of the session, offered to the
//! host engine as scalar functions that it may fold.

use crate::catalog::text_models;
use crate::relation::ColumnType;
use vstd::prelude::*;

verus! {

/// The introspection functions.
#[derive(Clone, Copy, Debug, PartialEq, Eq, Structural)]
pub enum IntrospectionFunction {
    Version,
    PgVersionNum,
    CurrentDatabase,
    CurrentUser,
    SessionUser,
    User,
    CurrentSchema,
    CurrentSchemas,
    GetDatabaseEncoding,
    PgEncodingToChar,
}

/// Whether a function may return another result for the same arguments.
#[derive(Clone, Copy, Debug, PartialEq, Eq, Structural)]
pub enum Volatility {
    Immutable,
    Stable,
    Volatile,
}

/// The name of the items of a list of texts.
pub const LIST_ITEM_NAME: &'static str = "schema";

/// What a scalar function returns.
#[derive(Clone, Copy, Debug, PartialEq, Eq, Structural)]
pub enum ReturnType {
    /// One text.
    Utf8,
    /// A list of texts, none of them null.
    Utf8List,
}

/// An argument handed to a scalar function.
#[derive(Clone, Copy, Debug, PartialEq, Eq, Structural)]
pub enum Argument {
    Boolean(bool),
    Int32(i32),
}

/// The result of a scalar function.
#[derive(Clone, Debug, PartialEq, Eq)]
pub enum ScalarValue {
    Text(String),
    TextList(Vec<String>),
}

/// A result, with its texts as sequences of characters.
pub enum ScalarValueModel {
    Text(Seq<char>),
    TextList(Seq<Seq<char>>),
}

impl View for ScalarValue {
    type V = ScalarValueModel;

    open spec fn view(&self) -> ScalarValueModel {
        match *self {
            ScalarValue::Text(text) => ScalarValueModel::Text(text@),
            ScalarValue::TextList(texts) => ScalarValueModel::TextList(text_models(texts@)),
        }
    }
}

/// The schemas of the search path: `public`, and after it the two implicit
/// schemas where they are asked for.
pub open spec fn current_schemas_spec(include_implicit: bool) -> Seq<Seq<char>> {
    if include_implicit {
        seq!["public"@, "information_schema"@, "pg_catalog"@]
    } else {
        seq!["public"@]
    }
}

impl IntrospectionFunction {
    /// The name under which the function is registered.
    pub open spec fn name_spec(self) -> Seq<char> {
        match self {
            IntrospectionFunction::Version => "version"@,
            IntrospectionFunction::PgVersionNum => "pg_version_num"@,
            IntrospectionFunction::CurrentDatabase => "current_database"@,
            IntrospectionFunction::CurrentUser => "current_user"@,
            IntrospectionFunction::SessionUser => "session_user"@,
            IntrospectionFunction::User => "user"@,
            IntrospectionFunction::CurrentSchema => "current_schema"@,
            IntrospectionFunction::CurrentSchemas => "current_schemas"@,
            IntrospectionFunction::GetDatabaseEncoding => "getdatabaseencoding"@,
            IntrospectionFunction::PgEncodingToChar => "pg_encoding_to_char"@,
        }
    }

    /// The type of the one argument, for the two functions that take one.
    pub open spec fn argument_type_spec(self) -> Option<ColumnType> {
        match self {
            IntrospectionFunction::CurrentSchemas => Some(ColumnType::Boolean),
            IntrospectionFunction::PgEncodingToChar => Some(ColumnType::Int32),
            _ => None,
        }
    }

    /// The types of the arguments in their order.
    pub open spec fn signature_spec(self) -> Seq<ColumnType> {
        match self.argument_type_spec() {
            Some(argument) => seq![argument],
            None => Seq::empty(),
        }
    }

    /// A list of texts for the search path, one text for every other function.
    pub open spec fn return_type_spec(self) -> ReturnType {
        if self == IntrospectionFunction::CurrentSchemas {
            ReturnType::Utf8List
        } else {
            ReturnType::Utf8
        }
    }

    /// The text that a function of one text returns; for the search path,
    /// its first schema.
    pub open spec fn text_spec(self) -> Seq<char> {
        match self {
            IntrospectionFunction::Version => "DataFusion-Postgres 0.5.1, compiled with DataFusion 47.0.0"@,
            IntrospectionFunction::PgVersionNum => "160100"@,
            IntrospectionFunction::CurrentDatabase => "datafusion"@,
            IntrospectionFunction::CurrentUser => "postgres"@,
            IntrospectionFunction::SessionUser => "postgres"@,
            IntrospectionFunction::User => "postgres"@,
            IntrospectionFunction::CurrentSchema => "public"@,
            IntrospectionFunction::CurrentSchemas => "public"@,
            IntrospectionFunction::GetDatabaseEncoding => "UTF8"@,
            IntrospectionFunction::PgEncodingToChar => "UTF8"@,
        }
    }

    /// Whether the function can be called with these arguments: the search
    /// path needs its boolean, the encoding's name some first argument.
    pub open spec fn accepts(self, arguments: Seq<Argument>) -> bool {
        match self {
            IntrospectionFunction::CurrentSchemas => arguments.len() >= 1
                && arguments[0] is Boolean,
            IntrospectionFunction::PgEncodingToChar => arguments.len() >= 1,
            _ => true,
        }
    }

    /// What the function returns for the arguments. Only the search path
    /// looks at its argument.
    pub open spec fn value_spec(self, arguments: Seq<Argument>) -> ScalarValueModel {
        if self == IntrospectionFunction::CurrentSchemas {
            ScalarValueModel::TextList(current_schemas_spec(arguments[0]->Boolean_0))
        } else {
            ScalarValueModel::Text(self.text_spec())
        }
    }

    /// The name under which the function is registered.
    pub fn name(self) -> (name: &'static str)
        ensures
            name@ == self.name_spec(),
    {
        match self {
            IntrospectionFunction::Version => "version",
            IntrospectionFunction::PgVersionNum => "pg_version_num",
            IntrospectionFunction::CurrentDatabase => "current_database",
            IntrospectionFunction::CurrentUser => "current_user",
            IntrospectionFunction::SessionUser => "session_user",
            IntrospectionFunction::User => "user",
            IntrospectionFunction::CurrentSchema => "current_schema",
            IntrospectionFunction::CurrentSchemas => "current_schemas",
            IntrospectionFunction::GetDatabaseEncoding => "getdatabaseencoding",
            IntrospectionFunction::PgEncodingToChar => "pg_encoding_to_char",
        }
    }

    /// The type of the one argument, for the two functions that take one.
    pub fn argument_type(self) -> (argument: Option<ColumnType>)
        ensures
            argument == self.argument_type_spec(),
    {
        match self {
            IntrospectionFunction::CurrentSchemas => Some(ColumnType::Boolean),
            IntrospectionFunction::PgEncodingToChar => Some(ColumnType::Int32),
            _ => None,
        }
    }

    fn text(self) -> (text: &'static str)
        ensures
            text@ == self.text_spec(),
    {
        match self {
            IntrospectionFunction::Version => "DataFusion-Postgres 0.5.1, compiled with DataFusion 47.0.0",
            IntrospectionFunction::PgVersionNum => "160100",
            IntrospectionFunction::CurrentDatabase => "datafusion",
            IntrospectionFunction::CurrentUser => "postgres",
            IntrospectionFunction::SessionUser => "postgres",
            IntrospectionFunction::User => "postgres",
            IntrospectionFunction::CurrentSchema => "public",
            IntrospectionFunction::CurrentSchemas => "public",
            IntrospectionFunction::GetDatabaseEncoding => "UTF8",
            IntrospectionFunction::PgEncodingToChar => "UTF8",
        }
    }
}

/// The schemas of the search path.
pub fn current_schemas(include_implicit: bool) -> (schemas: Vec<String>)
    ensures
        text_models(schemas@) == current_schemas_spec(include_implicit),
{
    let mut schemas: Vec<String> = Vec::new();
    schemas.push(String::from_str("public"));
    if include_implicit {
        schemas.push(String::from_str("information_schema"));
        schemas.push(String::from_str("pg_catalog"));
    }
    assert(text_models(schemas@) =~= current_schemas_spec(include_implicit));
    schemas
}

/// The first schema of the search path.
pub fn current_schema() -> (schema: String)
    ensures
        schema@ == "public"@,
{
    String::from_str(IntrospectionFunction::CurrentSchema.text())
}

/// The version of the server in words.
pub fn version() -> (version: String)
    ensures
        version@ == "DataFusion-Postgres 0.5.1, compiled with DataFusion 47.0.0"@,
{
    String::from_str(IntrospectionFunction::Version.text())
}

/// The version of the server as a number in text: major, minor and patch
/// in two digits each.
pub fn pg_version_num() -> (version: String)
    ensures
        version@ == "160100"@,
{
    String::from_str(IntrospectionFunction::PgVersionNum.text())
}

/// The name of the database of the session.
pub fn current_database() -> (database: String)
    ensures
        database@ == "datafusion"@,
{
    String::from_str(IntrospectionFunction::CurrentDatabase.text())
}

/// The user of the session.
pub fn current_user() -> (user: String)
    ensures
        user@ == "postgres"@,
{
    String::from_str(IntrospectionFunction::CurrentUser.text())
}

/// The user that opened the session.
pub fn session_user() -> (user: String)
    ensures
        user@ == "postgres"@,
{
    String::from_str(IntrospectionFunction::SessionUser.text())
}

/// The user of the session, under its short name.
pub fn user() -> (user: String)
    ensures
        user@ == "postgres"@,
{
    String::from_str(IntrospectionFunction::User.text())
}

/// The encoding of the database.
pub fn getdatabaseencoding() -> (encoding: String)
    ensures
        encoding@ == "UTF8"@,
{
    String::from_str(IntrospectionFunction::GetDatabaseEncoding.text())
}

/// The name of an encoding: `UTF8`, whatever its number.
pub fn pg_encoding_to_char(encoding_id: i32) -> (encoding: String)
    ensures
        encoding@ == "UTF8"@,
{
    String::from_str(IntrospectionFunction::PgEncodingToChar.text())
}

/// A scalar function as the host engine registers it.
#[derive(Clone, Debug, PartialEq, Eq)]
pub struct ScalarFunction {
    pub function: IntrospectionFunction,
    pub name: &'static str,
    pub signature: Vec<ColumnType>,
    pub return_type: ReturnType,
    pub volatility: Volatility,
}

impl ScalarFunction {
    /// Whether this is the registration of `function`: under its name, with
    /// its signature and its return type, and immutable.
    pub open spec fn registers(&self, function: IntrospectionFunction) -> bool {
        &&& self.function == function
        &&& self.name@ == function.name_spec()
        &&& self.signature@ == function.signature_spec()
        &&& self.return_type == function.return_type_spec()
        &&& self.volatility == Volatility::Immutable
    }

    /// The registration of an introspection function.
    pub fn new(function: IntrospectionFunction) -> (udf: ScalarFunction)
        ensures
            udf.registers(function),
    {
        let mut signature: Vec<ColumnType> = Vec::new();
        match function.argument_type() {
            Some(argument) => {
                signature.push(argument);
            },
            None => {},
        }
        assert(signature@ =~= function.signature_spec());
        ScalarFunction {
            function,
            name: function.name(),
            signature,
            return_type: if function == IntrospectionFunction::CurrentSchemas {
                ReturnType::Utf8List
            } else {
                ReturnType::Utf8
            },
            volatility: Volatility::Immutable,
        }
    }

    /// Calls the function.
    pub fn invoke(&self, arguments: &Vec<Argument>) -> (value: ScalarValue)
        requires
            self.function.accepts(arguments@),
        ensures
            value@ == self.function.value_spec(arguments@),
    {
        match self.function {
            IntrospectionFunction::CurrentSchemas => {
                match arguments[0] {
                    Argument::Boolean(include_implicit) => ScalarValue::TextList(
                        current_schemas(include_implicit),
                    ),
                    Argument::Int32(_) => ScalarValue::TextList(current_schemas(false)),
                }
            },
            function => ScalarValue::Text(String::from_str(function.text())),
        }
    }
}

/// The registration of `current_schemas`.
pub fn create_current_schemas_udf() -> (udf: ScalarFunction)
    ensures
        udf.registers(IntrospectionFunction::CurrentSchemas),
{
    ScalarFunction::new(IntrospectionFunction::CurrentSchemas)
}

/// The registration of `current_schema`.
pub fn create_current_schema_udf() -> (udf: ScalarFunction)
    ensures
        udf.registers(IntrospectionFunction::CurrentSchema),
{
    ScalarFunction::new(IntrospectionFunction::CurrentSchema)
}

/// The registration of `version`.
pub fn create_version_udf() -> (udf: ScalarFunction)
    ensures
        udf.registers(IntrospectionFunction::Version),
{
    ScalarFunction::new(IntrospectionFunction::Version)
}

/// The registration of `pg_version_num`.
pub fn create_pg_version_num_udf() -> (udf: ScalarFunction)
    ensures
        udf.registers(IntrospectionFunction::PgVersionNum),
{
    ScalarFunction::new(IntrospectionFunction::PgVersionNum)
}

/// The registration of `current_database`.
pub fn create_current_database_udf() -> (udf: ScalarFunction)
    ensures
        udf.registers(IntrospectionFunction::CurrentDatabase),
{
    ScalarFunction::new(IntrospectionFunction::CurrentDatabase)
}

/// The registration of `current_user`.
pub fn create_current_user_udf() -> (udf: ScalarFunction)
    ensures
        udf.registers(IntrospectionFunction::CurrentUser),
{
    ScalarFunction::new(IntrospectionFunction::CurrentUser)
}

/// The registration of `session_user`.
pub fn create_session_user_udf() -> (udf: ScalarFunction)
    ensures
        udf.registers(IntrospectionFunction::SessionUser),
{
    ScalarFunction::new(IntrospectionFunction::SessionUser)
}

/// The registration of `user`.
pub fn create_user_udf() -> (udf: ScalarFunction)
    ensures
        udf.registers(IntrospectionFunction::User),
{
    ScalarFunction::new(IntrospectionFunction::User)
}

/// The registration of `pg_encoding_to_char`.
pub fn create_pg_encoding_to_char_udf() -> (udf: ScalarFunction)
    ensures
        udf.registers(IntrospectionFunction::PgEncodingToChar),
{
    ScalarFunction::new(IntrospectionFunction::PgEncodingToChar)
}

/// The registration of `getdatabaseencoding`.
pub fn create_getdatabaseencoding_udf() -> (udf: ScalarFunction)
    ensures
        udf.registers(IntrospectionFunction::GetDatabaseEncoding),
{
    ScalarFunction::new(IntrospectionFunction::GetDatabaseEncoding)
}

} // verus!
