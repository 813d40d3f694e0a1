//! The field type system: the closed sets of data types, field types and
//! field contents, the typed field record (`ContentField`), and the total
//! conversion from loosely-typed wire descriptors (`ExternalField`) into
//! validated typed records, together with the serialization back to the
//! wire shape.
//!
//! Conversion fails closed: an unrecognized enumerated string, or a payload
//! whose shape does not match its declared field content, is a validation
//! error. On the recognized inputs, conversion followed by serialization is
//! the identity (`lemma_convert_round_trip`).

use vstd::prelude::*;
use crate::Error;

verus! {

/// How a scalar field's payload is to be interpreted.
#[derive(Clone, Copy, Debug, PartialEq, Eq, Structural)]
pub enum DataType {
    Text,
    Number,
    Boolean,
    RichText,
    Date,
}

/// The structural kind of the field as authored in the admin UI.
#[derive(Clone, Copy, Debug, PartialEq, Eq, Structural)]
pub enum FieldType {
    SingleLine,
    MultiLine,
    Select,
    Repeater,
}

/// The broad category of a field's payload: one scalar value, or a nested
/// group of fields.
#[derive(Clone, Copy, Debug, PartialEq, Eq, Structural)]
pub enum FieldContent {
    Scalar,
    Group,
}

/// The loosely-typed payload as it arrives on the wire: a scalar value
/// and a list of nested descriptors, of which at most one side may be
/// meaningful for any recognized field.
pub struct ExternalFieldData {
    pub value: String,
    pub children: Vec<ExternalField>,
}

/// A field descriptor as supplied by a caller: every enumerated attribute
/// is a plain string, to be checked against the closed sets above.
pub struct ExternalField {
    pub name: String,
    pub identifier: String,
    pub data_type: String,
    pub field_type: String,
    pub field_content: String,
    pub field_data: ExternalFieldData,
}

/// The validated, typed payload of a field.
pub enum FieldData {
    Scalar(String),
    Group(Vec<ContentField>),
}

/// One validated, typed field of a content entity.
pub struct ContentField {
    pub name: String,
    pub identifier: String,
    pub data_type: DataType,
    pub field_type: FieldType,
    pub field_content: FieldContent,
    pub field_data: FieldData,
}

/// Mathematical view of `ExternalFieldData`.
#[verifier::ext_equal]
pub struct ExternalFieldDataV {
    pub value: Seq<char>,
    pub children: Seq<ExternalFieldV>,
}

/// Mathematical view of `ExternalField`.
#[verifier::ext_equal]
pub struct ExternalFieldV {
    pub name: Seq<char>,
    pub identifier: Seq<char>,
    pub data_type: Seq<char>,
    pub field_type: Seq<char>,
    pub field_content: Seq<char>,
    pub field_data: ExternalFieldDataV,
}

/// Mathematical view of `FieldData`.
#[verifier::ext_equal]
pub enum FieldDataV {
    Scalar(Seq<char>),
    Group(Seq<FieldV>),
}

/// Mathematical view of `ContentField`.
#[verifier::ext_equal]
pub struct FieldV {
    pub name: Seq<char>,
    pub identifier: Seq<char>,
    pub data_type: DataType,
    pub field_type: FieldType,
    pub field_content: FieldContent,
    pub field_data: FieldDataV,
}

pub open spec fn ext_field_v(e: ExternalField) -> ExternalFieldV
    decreases e,
{
    ExternalFieldV {
        name: e.name@,
        identifier: e.identifier@,
        data_type: e.data_type@,
        field_type: e.field_type@,
        field_content: e.field_content@,
        field_data: ExternalFieldDataV {
            value: e.field_data.value@,
            children: ext_fields_v(e.field_data.children@),
        },
    }
}

pub open spec fn ext_fields_v(s: Seq<ExternalField>) -> Seq<ExternalFieldV>
    decreases s,
{
    if s.len() == 0 {
        Seq::empty()
    } else {
        seq![ext_field_v(s[0])] + ext_fields_v(s.drop_first())
    }
}

pub open spec fn field_v(f: ContentField) -> FieldV
    decreases f,
{
    FieldV {
        name: f.name@,
        identifier: f.identifier@,
        data_type: f.data_type,
        field_type: f.field_type,
        field_content: f.field_content,
        field_data: match f.field_data {
            FieldData::Scalar(v) => FieldDataV::Scalar(v@),
            FieldData::Group(g) => FieldDataV::Group(fields_v(g@)),
        },
    }
}

pub open spec fn fields_v(s: Seq<ContentField>) -> Seq<FieldV>
    decreases s,
{
    if s.len() == 0 {
        Seq::empty()
    } else {
        seq![field_v(s[0])] + fields_v(s.drop_first())
    }
}

/// Which string names which data type: the closed recognition set.
pub open spec fn data_type_of(s: Seq<char>) -> Option<DataType> {
    if s == "TEXT"@ {
        Some(DataType::Text)
    } else if s == "NUMBER"@ {
        Some(DataType::Number)
    } else if s == "BOOLEAN"@ {
        Some(DataType::Boolean)
    } else if s == "RICH_TEXT"@ {
        Some(DataType::RichText)
    } else if s == "DATE"@ {
        Some(DataType::Date)
    } else {
        None
    }
}

pub open spec fn data_type_text(d: DataType) -> Seq<char> {
    match d {
        DataType::Text => "TEXT"@,
        DataType::Number => "NUMBER"@,
        DataType::Boolean => "BOOLEAN"@,
        DataType::RichText => "RICH_TEXT"@,
        DataType::Date => "DATE"@,
    }
}

pub open spec fn field_type_of(s: Seq<char>) -> Option<FieldType> {
    if s == "SINGLE_LINE"@ {
        Some(FieldType::SingleLine)
    } else if s == "MULTI_LINE"@ {
        Some(FieldType::MultiLine)
    } else if s == "SELECT"@ {
        Some(FieldType::Select)
    } else if s == "REPEATER"@ {
        Some(FieldType::Repeater)
    } else {
        None
    }
}

pub open spec fn field_type_text(t: FieldType) -> Seq<char> {
    match t {
        FieldType::SingleLine => "SINGLE_LINE"@,
        FieldType::MultiLine => "MULTI_LINE"@,
        FieldType::Select => "SELECT"@,
        FieldType::Repeater => "REPEATER"@,
    }
}

pub open spec fn field_content_of(s: Seq<char>) -> Option<FieldContent> {
    if s == "SCALAR"@ {
        Some(FieldContent::Scalar)
    } else if s == "COLLECTION"@ {
        Some(FieldContent::Group)
    } else {
        None
    }
}

pub open spec fn field_content_text(c: FieldContent) -> Seq<char> {
    match c {
        FieldContent::Scalar => "SCALAR"@,
        FieldContent::Group => "COLLECTION"@,
    }
}

/// A wire descriptor is recognized when all three enumerated strings parse
/// and its payload has the shape its field content declares: a scalar field
/// carries no children, a group field carries no scalar value and only
/// recognized children.
pub open spec fn ext_ok(e: ExternalFieldV) -> bool
    decreases e,
{
    &&& data_type_of(e.data_type) is Some
    &&& field_type_of(e.field_type) is Some
    &&& match field_content_of(e.field_content) {
        Some(FieldContent::Scalar) => e.field_data.children.len() == 0,
        Some(FieldContent::Group) => e.field_data.value.len() == 0 && exts_ok(e.field_data.children),
        None => false,
    }
}

pub open spec fn exts_ok(s: Seq<ExternalFieldV>) -> bool
    decreases s,
{
    s.len() == 0 || (ext_ok(s[0]) && exts_ok(s.drop_first()))
}

/// What a recognized wire descriptor converts to.
pub open spec fn conv_field(e: ExternalFieldV) -> FieldV
    decreases e,
{
    FieldV {
        name: e.name,
        identifier: e.identifier,
        data_type: data_type_of(e.data_type)->Some_0,
        field_type: field_type_of(e.field_type)->Some_0,
        field_content: field_content_of(e.field_content)->Some_0,
        field_data: match field_content_of(e.field_content) {
            Some(FieldContent::Group) => FieldDataV::Group(conv_fields(e.field_data.children)),
            _ => FieldDataV::Scalar(e.field_data.value),
        },
    }
}

pub open spec fn conv_fields(s: Seq<ExternalFieldV>) -> Seq<FieldV>
    decreases s,
{
    if s.len() == 0 {
        Seq::empty()
    } else {
        seq![conv_field(s[0])] + conv_fields(s.drop_first())
    }
}

/// The wire shape that a typed field serializes back to.
pub open spec fn ext_of_field(f: FieldV) -> ExternalFieldV
    decreases f,
{
    ExternalFieldV {
        name: f.name,
        identifier: f.identifier,
        data_type: data_type_text(f.data_type),
        field_type: field_type_text(f.field_type),
        field_content: field_content_text(f.field_content),
        field_data: match f.field_data {
            FieldDataV::Scalar(v) => ExternalFieldDataV { value: v, children: Seq::empty() },
            FieldDataV::Group(g) => ExternalFieldDataV {
                value: Seq::empty(),
                children: ext_of_fields(g),
            },
        },
    }
}

pub open spec fn ext_of_fields(s: Seq<FieldV>) -> Seq<ExternalFieldV>
    decreases s,
{
    if s.len() == 0 {
        Seq::empty()
    } else {
        seq![ext_of_field(s[0])] + ext_of_fields(s.drop_first())
    }
}

/// A typed field is well formed when its payload variant agrees with its
/// declared field content, recursively.
pub open spec fn field_v_wf(f: FieldV) -> bool
    decreases f,
{
    match f.field_data {
        FieldDataV::Scalar(_) => f.field_content == FieldContent::Scalar,
        FieldDataV::Group(g) => f.field_content == FieldContent::Group && fields_v_wf(g),
    }
}

pub open spec fn fields_v_wf(s: Seq<FieldV>) -> bool
    decreases s,
{
    s.len() == 0 || (field_v_wf(s[0]) && fields_v_wf(s.drop_first()))
}

pub proof fn lemma_ext_fields_v_props(s: Seq<ExternalField>)
    ensures
        ext_fields_v(s).len() == s.len(),
        forall|i: int| 0 <= i < s.len() ==> ext_fields_v(s)[i] == ext_field_v(s[i]),
    decreases s,
{
    if s.len() > 0 {
        lemma_ext_fields_v_props(s.drop_first());
    }
}

pub proof fn lemma_fields_v_props(s: Seq<ContentField>)
    ensures
        fields_v(s).len() == s.len(),
        forall|i: int| 0 <= i < s.len() ==> fields_v(s)[i] == field_v(s[i]),
    decreases s,
{
    if s.len() > 0 {
        lemma_fields_v_props(s.drop_first());
    }
}

pub proof fn lemma_conv_fields_props(s: Seq<ExternalFieldV>)
    ensures
        conv_fields(s).len() == s.len(),
        forall|i: int| 0 <= i < s.len() ==> conv_fields(s)[i] == conv_field(s[i]),
    decreases s,
{
    if s.len() > 0 {
        lemma_conv_fields_props(s.drop_first());
    }
}

pub proof fn lemma_ext_of_fields_props(s: Seq<FieldV>)
    ensures
        ext_of_fields(s).len() == s.len(),
        forall|i: int| 0 <= i < s.len() ==> ext_of_fields(s)[i] == ext_of_field(s[i]),
    decreases s,
{
    if s.len() > 0 {
        lemma_ext_of_fields_props(s.drop_first());
    }
}

pub proof fn lemma_exts_ok_iff(s: Seq<ExternalFieldV>)
    ensures
        exts_ok(s) <==> (forall|i: int| 0 <= i < s.len() ==> ext_ok(s[i])),
    decreases s,
{
    if s.len() > 0 {
        lemma_exts_ok_iff(s.drop_first());
        assert(forall|i: int| 1 <= i < s.len() ==> s[i] == s.drop_first()[i - 1]);
    }
}

/// Compares a string against a literal, at the level of character views.
pub(crate) fn str_eq(s: &String, lit: &str) -> (r: bool)
    ensures
        r == (s@ == lit@),
{
    *s == lit.to_owned()
}

/// Recognizes a data type string from the closed set.
pub fn parse_data_type(s: &String) -> (r: Result<DataType, Error>)
    ensures
        match r {
            Ok(d) => data_type_of(s@) == Some(d),
            Err(e) => data_type_of(s@) is None && e == Error::Validation,
        },
{
    if str_eq(s, "TEXT") {
        Ok(DataType::Text)
    } else if str_eq(s, "NUMBER") {
        Ok(DataType::Number)
    } else if str_eq(s, "BOOLEAN") {
        Ok(DataType::Boolean)
    } else if str_eq(s, "RICH_TEXT") {
        Ok(DataType::RichText)
    } else if str_eq(s, "DATE") {
        Ok(DataType::Date)
    } else {
        Err(Error::Validation)
    }
}

/// Recognizes a field type string from the closed set.
pub fn parse_field_type(s: &String) -> (r: Result<FieldType, Error>)
    ensures
        match r {
            Ok(t) => field_type_of(s@) == Some(t),
            Err(e) => field_type_of(s@) is None && e == Error::Validation,
        },
{
    if str_eq(s, "SINGLE_LINE") {
        Ok(FieldType::SingleLine)
    } else if str_eq(s, "MULTI_LINE") {
        Ok(FieldType::MultiLine)
    } else if str_eq(s, "SELECT") {
        Ok(FieldType::Select)
    } else if str_eq(s, "REPEATER") {
        Ok(FieldType::Repeater)
    } else {
        Err(Error::Validation)
    }
}

/// Recognizes a field content string from the closed set.
pub fn parse_field_content(s: &String) -> (r: Result<FieldContent, Error>)
    ensures
        match r {
            Ok(c) => field_content_of(s@) == Some(c),
            Err(e) => field_content_of(s@) is None && e == Error::Validation,
        },
{
    if str_eq(s, "SCALAR") {
        Ok(FieldContent::Scalar)
    } else if str_eq(s, "COLLECTION") {
        Ok(FieldContent::Group)
    } else {
        Err(Error::Validation)
    }
}

/// Converts one wire descriptor into a typed field record.
///
/// Succeeds exactly on the recognized descriptors; on failure no partial
/// record is produced, only a validation error.
pub fn convert(e: &ExternalField) -> (r: Result<ContentField, Error>)
    ensures
        match r {
            Ok(f) => ext_ok(ext_field_v(*e)) && field_v(f) == conv_field(ext_field_v(*e)),
            Err(err) => !ext_ok(ext_field_v(*e)) && err == Error::Validation,
        },
    decreases *e,
{
    let data_type = match parse_data_type(&e.data_type) {
        Ok(d) => d,
        Err(err) => {
            return Err(err);
        },
    };
    let field_type = match parse_field_type(&e.field_type) {
        Ok(t) => t,
        Err(err) => {
            return Err(err);
        },
    };
    let field_content = match parse_field_content(&e.field_content) {
        Ok(c) => c,
        Err(err) => {
            return Err(err);
        },
    };
    match field_content {
        FieldContent::Scalar => {
            if e.field_data.children.len() != 0 {
                return Err(Error::Validation);
            }
            Ok(ContentField {
                name: e.name.clone(),
                identifier: e.identifier.clone(),
                data_type,
                field_type,
                field_content,
                field_data: FieldData::Scalar(e.field_data.value.clone()),
            })
        },
        FieldContent::Group => {
            if !e.field_data.value.as_str().is_empty() {
                return Err(Error::Validation);
            }
            match convert_fields(&e.field_data.children) {
                Ok(children) => Ok(ContentField {
                    name: e.name.clone(),
                    identifier: e.identifier.clone(),
                    data_type,
                    field_type,
                    field_content,
                    field_data: FieldData::Group(children),
                }),
                Err(err) => Err(err),
            }
        },
    }
}

/// Converts a whole descriptor list; any failing element fails the list,
/// so no partially converted list escapes.
pub fn convert_fields(v: &Vec<ExternalField>) -> (r: Result<Vec<ContentField>, Error>)
    ensures
        match r {
            Ok(fs) => exts_ok(ext_fields_v(v@)) && fields_v(fs@) == conv_fields(
                ext_fields_v(v@),
            ),
            Err(err) => !exts_ok(ext_fields_v(v@)) && err == Error::Validation,
        },
    decreases v@,
{
    proof {
        lemma_ext_fields_v_props(v@);
        lemma_exts_ok_iff(ext_fields_v(v@));
    }
    let mut out: Vec<ContentField> = Vec::new();
    let n = v.len();
    for i in 0..n
        invariant
            n == v@.len(),
            out@.len() == i,
            forall|j: int| #![trigger out@[j]]
                0 <= j < i ==> ext_ok(ext_field_v(v@[j])) && field_v(out@[j]) == conv_field(
                    ext_field_v(v@[j]),
                ),
        decreases n - i,
    {
        match convert(&v[i]) {
            Ok(f) => {
                out.push(f);
            },
            Err(err) => {
                proof {
                    lemma_ext_fields_v_props(v@);
                    lemma_exts_ok_iff(ext_fields_v(v@));
                    assert(ext_fields_v(v@)[i as int] == ext_field_v(v@[i as int]));
                    assert(!exts_ok(ext_fields_v(v@)));
                }
                return Err(err);
            },
        }
    }
    proof {
        lemma_ext_fields_v_props(v@);
        lemma_exts_ok_iff(ext_fields_v(v@));
        lemma_conv_fields_props(ext_fields_v(v@));
        lemma_fields_v_props(out@);
        assert forall|j: int| 0 <= j < ext_fields_v(v@).len() implies ext_ok(
            ext_fields_v(v@)[j],
        ) by {
            assert(field_v(out@[j]) == conv_field(ext_field_v(v@[j])));
        }
        assert forall|j: int| 0 <= j < out@.len() implies fields_v(out@)[j] == conv_fields(
            ext_fields_v(v@),
        )[j] by {
            assert(field_v(out@[j]) == conv_field(ext_field_v(v@[j])));
        }
        assert(fields_v(out@) =~= conv_fields(ext_fields_v(v@)));
    }
    Ok(out)
}

fn data_type_string(d: DataType) -> (r: String)
    ensures
        r@ == data_type_text(d),
{
    match d {
        DataType::Text => "TEXT".to_owned(),
        DataType::Number => "NUMBER".to_owned(),
        DataType::Boolean => "BOOLEAN".to_owned(),
        DataType::RichText => "RICH_TEXT".to_owned(),
        DataType::Date => "DATE".to_owned(),
    }
}

fn field_type_string(t: FieldType) -> (r: String)
    ensures
        r@ == field_type_text(t),
{
    match t {
        FieldType::SingleLine => "SINGLE_LINE".to_owned(),
        FieldType::MultiLine => "MULTI_LINE".to_owned(),
        FieldType::Select => "SELECT".to_owned(),
        FieldType::Repeater => "REPEATER".to_owned(),
    }
}

fn field_content_string(c: FieldContent) -> (r: String)
    ensures
        r@ == field_content_text(c),
{
    match c {
        FieldContent::Scalar => "SCALAR".to_owned(),
        FieldContent::Group => "COLLECTION".to_owned(),
    }
}

/// Serializes a typed field back to the wire shape.
pub fn to_external(f: &ContentField) -> (r: ExternalField)
    ensures
        ext_field_v(r) == ext_of_field(field_v(*f)),
    decreases *f,
{
    let field_data = match &f.field_data {
        FieldData::Scalar(v) => ExternalFieldData { value: v.clone(), children: Vec::new() },
        FieldData::Group(g) => ExternalFieldData {
            value: String::new(),
            children: to_external_fields(g),
        },
    };
    let r = ExternalField {
        name: f.name.clone(),
        identifier: f.identifier.clone(),
        data_type: data_type_string(f.data_type),
        field_type: field_type_string(f.field_type),
        field_content: field_content_string(f.field_content),
        field_data,
    };
    proof {
        assert(ext_field_v(r) =~~= ext_of_field(field_v(*f)));
    }
    r
}

/// Serializes a list of typed fields back to wire descriptors.
pub fn to_external_fields(v: &Vec<ContentField>) -> (r: Vec<ExternalField>)
    ensures
        ext_fields_v(r@) == ext_of_fields(fields_v(v@)),
    decreases v@,
{
    let mut out: Vec<ExternalField> = Vec::new();
    let n = v.len();
    for i in 0..n
        invariant
            n == v@.len(),
            out@.len() == i,
            forall|j: int| #![trigger out@[j]]
                0 <= j < i ==> ext_field_v(out@[j]) == ext_of_field(field_v(v@[j])),
        decreases n - i,
    {
        let e = to_external(&v[i]);
        out.push(e);
    }
    proof {
        lemma_fields_v_props(v@);
        lemma_ext_of_fields_props(fields_v(v@));
        lemma_ext_fields_v_props(out@);
        assert(ext_fields_v(out@) =~= ext_of_fields(fields_v(v@)));
    }
    out
}

impl ContentField {
    /// A deep copy with the same view.
    pub fn duplicate(&self) -> (r: ContentField)
        ensures
            field_v(r) == field_v(*self),
        decreases *self,
    {
        let field_data = match &self.field_data {
            FieldData::Scalar(v) => FieldData::Scalar(v.clone()),
            FieldData::Group(g) => FieldData::Group(duplicate_fields(g)),
        };
        let r = ContentField {
            name: self.name.clone(),
            identifier: self.identifier.clone(),
            data_type: self.data_type,
            field_type: self.field_type,
            field_content: self.field_content,
            field_data,
        };
        proof {
            assert(field_v(r) =~~= field_v(*self));
        }
        r
    }
}

/// Deep-copies a field list, preserving its view.
pub fn duplicate_fields(v: &Vec<ContentField>) -> (r: Vec<ContentField>)
    ensures
        fields_v(r@) == fields_v(v@),
    decreases v@,
{
    let mut out: Vec<ContentField> = Vec::new();
    let n = v.len();
    for i in 0..n
        invariant
            n == v@.len(),
            out@.len() == i,
            forall|j: int| #![trigger out@[j]] 0 <= j < i ==> field_v(out@[j]) == field_v(v@[j]),
        decreases n - i,
    {
        let f = v[i].duplicate();
        out.push(f);
    }
    proof {
        lemma_fields_v_props(v@);
        lemma_fields_v_props(out@);
        assert(fields_v(out@) =~= fields_v(v@));
    }
    out
}

/// Conversion of a recognized descriptor yields a well-formed typed field:
/// the payload variant always agrees with the declared field content.
pub proof fn lemma_conv_field_wf(e: ExternalFieldV)
    requires
        ext_ok(e),
    ensures
        field_v_wf(conv_field(e)),
    decreases e,
{
    match field_content_of(e.field_content) {
        Some(FieldContent::Group) => {
            lemma_conv_fields_wf(e.field_data.children);
        },
        _ => {},
    }
}

pub proof fn lemma_conv_fields_wf(s: Seq<ExternalFieldV>)
    requires
        exts_ok(s),
    ensures
        fields_v_wf(conv_fields(s)),
    decreases s,
{
    if s.len() > 0 {
        lemma_conv_field_wf(s[0]);
        lemma_conv_fields_wf(s.drop_first());
        assert(conv_fields(s).drop_first() =~= conv_fields(s.drop_first()));
    }
}

/// The round-trip law: on every recognized wire descriptor, converting and
/// serializing back is the identity on all attributes.
pub proof fn lemma_convert_round_trip(e: ExternalFieldV)
    requires
        ext_ok(e),
    ensures
        ext_of_field(conv_field(e)) == e,
    decreases e,
{
    match field_content_of(e.field_content) {
        Some(FieldContent::Group) => {
            lemma_convert_round_trip_fields(e.field_data.children);
            assert(ext_of_field(conv_field(e)).field_data =~~= e.field_data);
            assert(ext_of_field(conv_field(e)) =~~= e);
        },
        _ => {
            assert(field_content_of(e.field_content) == Some(FieldContent::Scalar));
            assert(conv_field(e).field_data == FieldDataV::Scalar(e.field_data.value));
            assert(ext_of_field(conv_field(e)).field_data.value == e.field_data.value);
            assert(ext_of_field(conv_field(e)).field_data.children =~= e.field_data.children);
            assert(ext_of_field(conv_field(e)).field_data =~= e.field_data);
            assert(ext_of_field(conv_field(e)) =~~= e);
        },
    }
}

pub proof fn lemma_convert_round_trip_fields(s: Seq<ExternalFieldV>)
    requires
        exts_ok(s),
    ensures
        ext_of_fields(conv_fields(s)) == s,
    decreases s,
{
    if s.len() > 0 {
        lemma_convert_round_trip(s[0]);
        lemma_convert_round_trip_fields(s.drop_first());
        assert(conv_fields(s).drop_first() =~= conv_fields(s.drop_first()));
        assert(ext_of_fields(conv_fields(s)) =~= s);
    } else {
        assert(ext_of_fields(conv_fields(s)) =~= s);
    }
}

} // verus!
