//! From the declaration of a data type to its table binding.
//!
//! Whoever generates an [`crate::AsTable`] implementation for a data type
//! describes the type's declaration as a [`TableDecl`] and gets from
//! [`TableDecl::table_name`] and [`TableDecl::bind`] what the implementation
//! has to hold, or the reason why the type cannot be a table.

use vstd::prelude::*;

verus! {

/// The attribute that marks the primary key field.
pub const KEY_ATTRIBUTE: &'static str = "key";

/// The attribute that marks a foreign key field.
pub const FOREIGN_KEY_ATTRIBUTE: &'static str = "foreign_key";

/// The attribute on the type that holds the table's settings.
pub const TABLE_ATTRIBUTE: &'static str = "minidb";

/// The setting that names the table.
pub const NAME_SETTING: &'static str = "name";

/// The name of the identifier type.
pub const ID_TYPE: &'static str = "Id";

/// The snake case form of `name`, as `heck` computes it.
pub uninterp spec fn snake_cased(name: Seq<char>) -> Seq<char>;

/// Converts `name` to snake case with `heck::ToSnakeCase::to_snake_case`.
#[verifier::external_body]
fn to_snake_case(name: &str) -> (snake: String)
    ensures
        snake@ == snake_cased(name@),
{
    heck::ToSnakeCase::to_snake_case(name)
}

/// Whether `text` reads `word`.
fn reads(text: &String, word: &str) -> (same: bool)
    ensures
        same == (text@ == word@),
{
    *text == word.to_owned()
}

/// Why a data type cannot be a table.
#[derive(Debug, Clone, Copy, PartialEq, Eq)]
pub enum DeriveError {
    /// The table attribute holds a setting other than the name.
    UnknownSetting,
    /// The name of the table is not given as a string.
    NameNotAString,
    /// The data type is an enum or a union.
    NotAStruct,
    /// The field with this index has no name.
    UnnamedField(usize),
    /// The key field, which has this index, is not of the identifier type.
    KeyNotId(usize),
    /// The foreign key field with this index is not an identifier of a table.
    ForeignKeyNotId(usize),
    /// As many fields as this are marked as the key, and not exactly one.
    KeyCount(usize),
}

impl DeriveError {
    /// The message that the error is reported with.
    pub fn message(&self) -> (text: &'static str)
        ensures
            text@ == self.spec_message(),
    {
        match self {
            DeriveError::UnknownSetting => {
                "Unknown minidb attribute on struct. Expected one of [`name`]"
            },
            DeriveError::NameNotAString => "Expected string literal for `name` attribute",
            DeriveError::NotAStruct => "Table derive macro only supports structs",
            DeriveError::UnnamedField(_) => "Struct field must have a name",
            DeriveError::KeyNotId(_) => "The #[key] field must be of type `Id<Self>`.",
            DeriveError::ForeignKeyNotId(_) => "Foreign key field must be of type `Id<Table>`.",
            DeriveError::KeyCount(_) => {
                "A struct deriving `Table` must have exactly one field marked with `#[key]`."
            },
        }
    }

    /// The message that the error is reported with.
    pub open spec fn spec_message(&self) -> Seq<char> {
        match self {
            DeriveError::UnknownSetting => {
                "Unknown minidb attribute on struct. Expected one of [`name`]"@
            },
            DeriveError::NameNotAString => "Expected string literal for `name` attribute"@,
            DeriveError::NotAStruct => "Table derive macro only supports structs"@,
            DeriveError::UnnamedField(_) => "Struct field must have a name"@,
            DeriveError::KeyNotId(_) => "The #[key] field must be of type `Id<Self>`."@,
            DeriveError::ForeignKeyNotId(_) => "Foreign key field must be of type `Id<Table>`."@,
            DeriveError::KeyCount(_) => {
                "A struct deriving `Table` must have exactly one field marked with `#[key]`."@
            },
        }
    }
}

/// What kind of data type a declaration declares.
#[derive(Debug, Clone, Copy, PartialEq, Eq)]
pub enum DeclKind {
    Struct,
    Enum,
    Union,
}

/// One generic argument of a type, as far as a binding depends on it.
#[derive(Debug, Clone, PartialEq, Eq)]
pub enum ArgumentShape {
    /// A type that is a path; the name is that of the path's last segment.
    Path(String),
    /// Anything else: a lifetime, a constant, a type that is no path.
    Other,
}

/// The type of a field, as far as a binding depends on it.
#[derive(Debug, Clone, PartialEq, Eq)]
pub enum TypeShape {
    /// A type that is a path, taken by its last segment.
    Path {
        /// The name of the last segment
        ident: String,
        /// The generic arguments of the last segment, where it has any in
        /// angle brackets
        arguments: Option<Vec<ArgumentShape>>,
    },
    /// Any other type.
    Other,
}

/// One setting inside the table attribute.
#[derive(Debug, Clone, PartialEq, Eq)]
pub struct Setting {
    /// The name of the setting
    pub name: String,
    /// The value, where it is a string
    pub value: Option<String>,
}

/// An attribute on the data type.
#[derive(Debug, Clone, PartialEq, Eq)]
pub struct Attribute {
    /// The name of the attribute; empty where its path is more than a name
    pub path: String,
    /// The settings that the attribute holds
    pub settings: Vec<Setting>,
}

/// A field of the data type.
#[derive(Debug, Clone, PartialEq, Eq)]
pub struct FieldDecl {
    /// The name of the field, where it has one
    pub name: Option<String>,
    /// The type of the field
    pub ty: TypeShape,
    /// The names of the attributes on the field
    pub attributes: Vec<String>,
}

/// The declaration of a data type.
#[derive(Debug, Clone, PartialEq, Eq)]
pub struct TableDecl {
    /// The name of the data type
    pub name: String,
    /// Whether it is a struct
    pub kind: DeclKind,
    /// The attributes on the data type
    pub attributes: Vec<Attribute>,
    /// The fields, in the order of their declaration
    pub fields: Vec<FieldDecl>,
}

/// A foreign key of a table.
#[derive(Debug, Clone, PartialEq, Eq)]
pub struct Reference {
    /// The name of the field that holds the key
    pub field: String,
    /// The name of the data type whose table the key refers to
    pub target: String,
}

/// What the implementation of [`crate::AsTable`] for a data type holds.
#[derive(Debug, Clone, PartialEq, Eq)]
pub struct TableBinding {
    /// The name of the table
    pub name: String,
    /// The name of the field that holds the primary key
    pub key: String,
    /// The foreign keys, in the order of their fields
    pub foreign_keys: Vec<Reference>,
}

/// What a [`TableBinding`] is in contracts.
pub struct TableBindingView {
    pub name: Seq<char>,
    pub key: Seq<char>,
    pub foreign_keys: Seq<(Seq<char>, Seq<char>)>,
}

impl View for TableBinding {
    type V = TableBindingView;

    open spec fn view(&self) -> TableBindingView {
        TableBindingView {
            name: self.name@,
            key: self.key@,
            foreign_keys: self.foreign_keys@.map_values(|r: Reference| (r.field@, r.target@)),
        }
    }
}

impl TypeShape {
    /// Whether the type is the identifier type with one generic argument.
    pub open spec fn spec_is_id_type(&self) -> bool {
        self matches TypeShape::Path { ident, arguments: Some(arguments) } && ident@ == ID_TYPE@
            && arguments@.len() == 1
    }

    /// The data type that an identifier of this type refers to: the name of
    /// the single generic argument of the identifier type, where that
    /// argument is a path.
    pub open spec fn spec_ref_table(&self) -> Option<Seq<char>> {
        match self {
            TypeShape::Path { ident, arguments: Some(arguments) } => if ident@ == ID_TYPE@
                && arguments@.len() == 1 {
                match arguments@[0] {
                    ArgumentShape::Path(target) => Some(target@),
                    ArgumentShape::Other => None,
                }
            } else {
                None
            },
            _ => None,
        }
    }

    /// Whether the type is the identifier type with one generic argument.
    pub fn is_id_type(&self) -> (is_id: bool)
        ensures
            is_id == self.spec_is_id_type(),
    {
        match self {
            TypeShape::Path { ident, arguments: Some(arguments) } => reads(ident, ID_TYPE)
                && arguments.len() == 1,
            _ => false,
        }
    }

    /// The data type that an identifier of this type refers to, if the type
    /// is an identifier of a table.
    pub fn get_ref_table(&self) -> (target: Option<String>)
        ensures
            self.spec_ref_table() == match target {
                Some(name) => Some(name@),
                None => None,
            },
    {
        match self {
            TypeShape::Path { ident, arguments: Some(arguments) } => {
                if reads(ident, ID_TYPE) && arguments.len() == 1 {
                    match &arguments[0] {
                        ArgumentShape::Path(target) => Some(target.clone()),
                        ArgumentShape::Other => None,
                    }
                } else {
                    None
                }
            },
            _ => None,
        }
    }
}

/// Whether one of `attributes` is named `name`.
pub open spec fn has_attribute(attributes: Seq<String>, name: Seq<char>) -> bool {
    exists|i: int| 0 <= i < attributes.len() && (#[trigger] attributes[i])@ == name
}

/// What the attributes of a field say of it.
#[derive(Debug, Clone, Copy, PartialEq, Eq)]
pub struct MiniDBFieldAttributes {
    /// The field holds the primary key.
    pub is_key: bool,
    /// The field holds a foreign key.
    pub is_foreign_key: bool,
}

impl MiniDBFieldAttributes {
    /// Reads the attributes of a field: it is the key where one of them is
    /// the key attribute, and a foreign key where one of them is the foreign
    /// key attribute.
    pub fn from_attributes(attributes: &Vec<String>) -> (marks: Self)
        ensures
            marks.is_key == has_attribute(attributes@, KEY_ATTRIBUTE@),
            marks.is_foreign_key == has_attribute(attributes@, FOREIGN_KEY_ATTRIBUTE@),
    {
        let mut marks = MiniDBFieldAttributes { is_key: false, is_foreign_key: false };
        let mut i: usize = 0;
        while i < attributes.len()
            invariant
                i <= attributes.len(),
                marks.is_key == has_attribute(attributes@.take(i as int), KEY_ATTRIBUTE@),
                marks.is_foreign_key == has_attribute(
                    attributes@.take(i as int),
                    FOREIGN_KEY_ATTRIBUTE@,
                ),
            decreases attributes.len() - i,
        {
            let ghost before = attributes@.take(i as int);
            let ghost after = attributes@.take(i + 1);
            assert forall|name: Seq<char>|
                has_attribute(after, name) == (has_attribute(before, name) || attributes@[i as int]@
                    == name) by {
                if has_attribute(before, name) {
                    let j = choose|j: int| 0 <= j < before.len() && (#[trigger] before[j])@ == name;
                    assert(after[j]@ == name);
                }
                if attributes@[i as int]@ == name {
                    assert(after[i as int]@ == name);
                }
            }
            if reads(&attributes[i], KEY_ATTRIBUTE) {
                marks.is_key = true;
            } else if reads(&attributes[i], FOREIGN_KEY_ATTRIBUTE) {
                marks.is_foreign_key = true;
            }
            proof {
                reveal_strlit("key");
                reveal_strlit("foreign_key");
                assert(KEY_ATTRIBUTE@.len() != FOREIGN_KEY_ATTRIBUTE@.len());
            }
            i += 1;
        }
        assert(attributes@.take(i as int) == attributes@);
        marks
    }
}

/// What the settings of one table attribute make of the name that was found
/// before them: each setting must be the name, given as a string, and the
/// last one counts.
pub open spec fn scan_settings(settings: Seq<Setting>, found: Option<Seq<char>>) -> Result<
    Option<Seq<char>>,
    DeriveError,
>
    decreases settings.len(),
{
    if settings.len() == 0 {
        Ok(found)
    } else if settings[0].name@ != NAME_SETTING@ {
        Err(DeriveError::UnknownSetting)
    } else {
        match settings[0].value {
            None => Err(DeriveError::NameNotAString),
            Some(value) => scan_settings(settings.drop_first(), Some(value@)),
        }
    }
}

/// What the attributes of a data type make of the name that was found
/// before them: the table attributes are read in turn, the others passed
/// over.
pub open spec fn scan_attributes(attributes: Seq<Attribute>, found: Option<Seq<char>>) -> Result<
    Option<Seq<char>>,
    DeriveError,
>
    decreases attributes.len(),
{
    if attributes.len() == 0 {
        Ok(found)
    } else if attributes[0].path@ == TABLE_ATTRIBUTE@ {
        match scan_settings(attributes[0].settings@, found) {
            Err(error) => Err(error),
            Ok(found) => scan_attributes(attributes.drop_first(), found),
        }
    } else {
        scan_attributes(attributes.drop_first(), found)
    }
}

/// What the attributes of a data type say of its table.
#[derive(Debug, Clone, PartialEq, Eq)]
pub struct MiniDBStructAttributes {
    /// The name that was chosen for the table, if one was
    pub name: Option<String>,
}

impl MiniDBStructAttributes {
    /// The chosen name, in contracts.
    pub open spec fn spec_name(&self) -> Option<Seq<char>> {
        match self.name {
            Some(name) => Some(name@),
            None => None,
        }
    }

    /// Reads the settings of one table attribute.
    fn read_settings(&mut self, settings: &Vec<Setting>) -> (outcome: Result<(), DeriveError>)
        ensures
            match scan_settings(settings@, old(self).spec_name()) {
                Ok(found) => outcome is Ok && final(self).spec_name() == found,
                Err(error) => outcome == Err::<(), DeriveError>(error),
            },
    {
        let ghost start = self.spec_name();
        let mut i: usize = 0;
        assert(settings@.skip(0) =~= settings@);
        while i < settings.len()
            invariant
                i <= settings.len(),
                scan_settings(settings@, start) == scan_settings(
                    settings@.skip(i as int),
                    self.spec_name(),
                ),
            decreases settings.len() - i,
        {
            let ghost rest = settings@.skip(i as int);
            assert(rest.drop_first() == settings@.skip(i + 1));
            let setting = &settings[i];
            if !reads(&setting.name, NAME_SETTING) {
                return Err(DeriveError::UnknownSetting);
            }
            match &setting.value {
                None => {
                    return Err(DeriveError::NameNotAString);
                },
                Some(value) => {
                    self.name = Some(value.clone());
                },
            }
            i += 1;
        }
        Ok(())
    }

    /// Reads the attributes of a data type. It fails at the first setting of
    /// a table attribute that is not the name or that is not a string.
    pub fn from_attributes(attributes: &Vec<Attribute>) -> (outcome: Result<Self, DeriveError>)
        ensures
            match scan_attributes(attributes@, None) {
                Ok(found) => outcome matches Ok(read) && read.spec_name() == found,
                Err(error) => outcome == Err::<Self, DeriveError>(error),
            },
    {
        let mut read = MiniDBStructAttributes { name: None };
        let mut i: usize = 0;
        assert(attributes@.skip(0) =~= attributes@);
        while i < attributes.len()
            invariant
                i <= attributes.len(),
                scan_attributes(attributes@, None) == scan_attributes(
                    attributes@.skip(i as int),
                    read.spec_name(),
                ),
            decreases attributes.len() - i,
        {
            let ghost rest = attributes@.skip(i as int);
            assert(rest.drop_first() == attributes@.skip(i + 1));
            if reads(&attributes[i].path, TABLE_ATTRIBUTE) {
                match read.read_settings(&attributes[i].settings) {
                    Ok(()) => {},
                    Err(error) => {
                        return Err(error);
                    },
                }
            }
            i += 1;
        }
        Ok(read)
    }
}

impl FieldDecl {
    /// Whether the field is marked as the primary key.
    pub open spec fn is_key(&self) -> bool {
        has_attribute(self.attributes@, KEY_ATTRIBUTE@)
    }

    /// Whether the field is marked as a foreign key.
    pub open spec fn is_foreign_key(&self) -> bool {
        has_attribute(self.attributes@, FOREIGN_KEY_ATTRIBUTE@)
    }

    /// What is wrong with the field, which stands at `index`: it has no name,
    /// or it is the key and not of the identifier type, or it is a foreign
    /// key and no identifier of a table.
    pub open spec fn error(&self, index: int) -> Option<DeriveError> {
        if self.name is None {
            Some(DeriveError::UnnamedField(index as usize))
        } else if self.is_key() && !self.ty.spec_is_id_type() {
            Some(DeriveError::KeyNotId(index as usize))
        } else if self.is_foreign_key() && self.ty.spec_ref_table() is None {
            Some(DeriveError::ForeignKeyNotId(index as usize))
        } else {
            None
        }
    }
}

/// The error of the first of the fields from `from` on that has one.
pub open spec fn first_field_error(fields: Seq<FieldDecl>, from: int) -> Option<DeriveError>
    decreases fields.len() - from,
{
    if from < 0 || from >= fields.len() {
        None
    } else {
        match fields[from].error(from) {
            Some(error) => Some(error),
            None => first_field_error(fields, from + 1),
        }
    }
}

/// How many of the first `n` fields are marked as the key.
pub open spec fn keys_among(fields: Seq<FieldDecl>, n: int) -> nat
    decreases n,
{
    if n <= 0 || n > fields.len() {
        0
    } else if fields[n - 1].is_key() {
        keys_among(fields, n - 1) + 1
    } else {
        keys_among(fields, n - 1)
    }
}

/// The name of the last of the first `n` fields that is marked as the key.
pub open spec fn key_among(fields: Seq<FieldDecl>, n: int) -> Option<Seq<char>>
    decreases n,
{
    if n <= 0 || n > fields.len() {
        None
    } else if fields[n - 1].is_key() && fields[n - 1].name is Some {
        Some(fields[n - 1].name->0@)
    } else {
        key_among(fields, n - 1)
    }
}

/// The foreign keys among the first `n` fields: for each field that is
/// marked as one, its name and the data type that it refers to.
pub open spec fn references_among(fields: Seq<FieldDecl>, n: int) -> Seq<(Seq<char>, Seq<char>)>
    decreases n,
{
    if n <= 0 || n > fields.len() {
        Seq::empty()
    } else if fields[n - 1].is_foreign_key() && fields[n - 1].name is Some
        && fields[n - 1].ty.spec_ref_table() is Some {
        references_among(fields, n - 1).push(
            (fields[n - 1].name->0@, fields[n - 1].ty.spec_ref_table()->0),
        )
    } else {
        references_among(fields, n - 1)
    }
}

/// No field before `upto` has an error exactly if the search for the first
/// error, started at `from`, comes as far as `upto` without finding one.
proof fn lemma_first_field_error(fields: Seq<FieldDecl>, from: int, upto: int)
    requires
        0 <= from <= upto <= fields.len(),
        forall|j: int| from <= j < upto ==> (#[trigger] fields[j]).error(j) is None,
    ensures
        first_field_error(fields, from) == first_field_error(fields, upto),
    decreases upto - from,
{
    if from < upto {
        lemma_first_field_error(fields, from + 1, upto);
    }
}

impl TableDecl {
    /// The name of the table: the snake case form of the name that the table
    /// attribute gives, or else of the data type's own name.
    pub open spec fn spec_table_name(&self) -> Result<Seq<char>, DeriveError> {
        match scan_attributes(self.attributes@, None) {
            Err(error) => Err(error),
            Ok(Some(name)) => Ok(snake_cased(name)),
            Ok(None) => Ok(snake_cased(self.name@)),
        }
    }

    /// The binding of the table `name` to the data type. Only a struct can
    /// be a table. The first field with an error decides, where there is one;
    /// otherwise exactly one field must be marked as the key. The binding
    /// then names that field, and every foreign key with the data type that
    /// it refers to.
    pub open spec fn spec_bind(&self, name: Seq<char>) -> Result<TableBindingView, DeriveError> {
        let fields = self.fields@;
        let n = fields.len() as int;
        if !(self.kind is Struct) {
            Err(DeriveError::NotAStruct)
        } else if first_field_error(fields, 0) is Some {
            Err(first_field_error(fields, 0)->0)
        } else if keys_among(fields, n) != 1 {
            Err(DeriveError::KeyCount(keys_among(fields, n) as usize))
        } else {
            Ok(
                TableBindingView {
                    name,
                    key: key_among(fields, n)->0,
                    foreign_keys: references_among(fields, n),
                },
            )
        }
    }

    /// The name of the table: see [`TableDecl::spec_table_name`].
    pub fn table_name(&self) -> (name: Result<String, DeriveError>)
        ensures
            self.spec_table_name() == match name {
                Ok(name) => Ok::<Seq<char>, DeriveError>(name@),
                Err(error) => Err(error),
            },
    {
        match MiniDBStructAttributes::from_attributes(&self.attributes) {
            Err(error) => Err(error),
            Ok(read) => match read.name {
                Some(custom) => Ok(to_snake_case(custom.as_str())),
                None => Ok(to_snake_case(self.name.as_str())),
            },
        }
    }

    /// The binding of the table `name` to the data type: see
    /// [`TableDecl::spec_bind`].
    pub fn bind(&self, name: String) -> (binding: Result<TableBinding, DeriveError>)
        ensures
            self.spec_bind(name@) == match binding {
                Ok(binding) => Ok::<TableBindingView, DeriveError>(binding@),
                Err(error) => Err(error),
            },
    {
        match self.kind {
            DeclKind::Struct => {},
            _ => {
                return Err(DeriveError::NotAStruct);
            },
        }
        let ghost fields = self.fields@;
        let mut key: Option<String> = None;
        let mut keys: usize = 0;
        let mut foreign_keys: Vec<Reference> = Vec::new();
        let mut i: usize = 0;
        while i < self.fields.len()
            invariant
                i <= self.fields.len(),
                self.kind is Struct,
                fields == self.fields@,
                forall|j: int| 0 <= j < i ==> (#[trigger] fields[j]).error(j) is None,
                keys == keys_among(fields, i as int),
                keys <= i,
                key_among(fields, i as int) == match key {
                    Some(name) => Some(name@),
                    None => None,
                },
                foreign_keys@.map_values(|r: Reference| (r.field@, r.target@)) == references_among(
                    fields,
                    i as int,
                ),
            decreases self.fields.len() - i,
        {
            let field = &self.fields[i];
            let marks = MiniDBFieldAttributes::from_attributes(&field.attributes);
            let field_name = match &field.name {
                Some(name) => name,
                None => {
                    proof {
                        lemma_first_field_error(fields, 0, i as int);
                    }
                    return Err(DeriveError::UnnamedField(i));
                },
            };
            if marks.is_key {
                keys += 1;
                key = Some(field_name.clone());
                if !field.ty.is_id_type() {
                    proof {
                        lemma_first_field_error(fields, 0, i as int);
                    }
                    return Err(DeriveError::KeyNotId(i));
                }
            }
            if marks.is_foreign_key {
                match field.ty.get_ref_table() {
                    None => {
                        proof {
                            lemma_first_field_error(fields, 0, i as int);
                        }
                        return Err(DeriveError::ForeignKeyNotId(i));
                    },
                    Some(target) => {
                        foreign_keys.push(Reference { field: field_name.clone(), target });
                    },
                }
            }
            i += 1;
        }
        proof {
            lemma_first_field_error(fields, 0, i as int);
            lemma_single_key(fields, i as int);
        }
        if keys != 1 {
            return Err(DeriveError::KeyCount(keys));
        }
        match key {
            Some(key) => Ok(TableBinding { name, key, foreign_keys }),
            None => Err(DeriveError::KeyCount(keys)),
        }
    }
}

/// What a binding means. Where a data type has a binding, it is a struct,
/// none of its fields has an error, and exactly one of them is marked as the
/// key: that field has the name that the binding gives, and is of the
/// identifier type.
pub proof fn law_binding_has_one_key(decl: TableDecl, name: Seq<char>)
    requires
        decl.spec_bind(name) is Ok,
    ensures
        decl.kind is Struct,
        forall|j: int| 0 <= j < decl.fields@.len() ==> (#[trigger] decl.fields@[j]).error(j) is None,
        exists|k: int|
            {
                &&& 0 <= k < decl.fields@.len()
                &&& (#[trigger] decl.fields@[k]).is_key()
                &&& decl.fields@[k].ty.spec_is_id_type()
                &&& decl.fields@[k].name matches Some(field) && field@ == decl.spec_bind(
                    name,
                )->Ok_0.key
                &&& forall|j: int|
                    0 <= j < decl.fields@.len() && j != k ==> !(#[trigger] decl.fields@[j]).is_key()
            },
{
    let fields = decl.fields@;
    let n = fields.len() as int;
    lemma_no_field_error(fields, 0);
    lemma_single_key(fields, n);
}

/// Where the search for the first error from `from` on finds none, no field
/// from there on has one.
proof fn lemma_no_field_error(fields: Seq<FieldDecl>, from: int)
    requires
        0 <= from,
        first_field_error(fields, from) is None,
    ensures
        forall|j: int| from <= j < fields.len() ==> (#[trigger] fields[j]).error(j) is None,
    decreases fields.len() - from,
{
    if from < fields.len() {
        lemma_no_field_error(fields, from + 1);
    }
}

/// Among the first `n` fields, none of which is without a name, the keys
/// are counted one by one: where there is none, no field is the key, and
/// where there is one, it is the field that `key_among` names.
proof fn lemma_single_key(fields: Seq<FieldDecl>, n: int)
    requires
        0 <= n <= fields.len(),
        forall|j: int| 0 <= j < n ==> (#[trigger] fields[j]).name is Some,
    ensures
        keys_among(fields, n) == 0 ==> forall|j: int|
            0 <= j < n ==> !(#[trigger] fields[j]).is_key(),
        keys_among(fields, n) == 1 ==> exists|k: int|
            {
                &&& 0 <= k < n
                &&& (#[trigger] fields[k]).is_key()
                &&& Some(fields[k].name->0@) == key_among(fields, n)
                &&& forall|j: int| 0 <= j < n && j != k ==> !(#[trigger] fields[j]).is_key()
            },
    decreases n,
{
    if n > 0 {
        lemma_single_key(fields, n - 1);
    }
}

} // verus!
