//! Validation errors of requests, grouped by field, and the error message that
//! a rejected request is answered with.
use vstd::prelude::*;
use crate::text::{join_texts, spec_join, spec_texts};

verus! {

/// The fields that request validation reports on.
#[derive(Debug, Clone, Copy, PartialEq, Eq, Structural)]
pub enum Field {
    CronExpression,
    Strategy,
    Provider,
    Path,
    BluePath,
    GreenPath,
    RoleArn,
    Url,
    /// Errors of a whole structure, reported under `"__all__"`.
    Schema,
}

impl Field {
    /// The field's name as errors report it.
    pub open spec fn spec_name(self) -> Seq<char> {
        match self {
            Field::CronExpression => "cron_expression"@,
            Field::Strategy => "strategy"@,
            Field::Provider => "provider"@,
            Field::Path => "path"@,
            Field::BluePath => "blue_path"@,
            Field::GreenPath => "green_path"@,
            Field::RoleArn => "role_arn"@,
            Field::Url => "url"@,
            Field::Schema => "__all__"@,
        }
    }

    /// The field's name as errors report it, such as `"role_arn"`.
    pub fn name(&self) -> (res: &'static str)
        ensures
            res@ == self.spec_name(),
    {
        match self {
            Field::CronExpression => "cron_expression",
            Field::Strategy => "strategy",
            Field::Provider => "provider",
            Field::Path => "path",
            Field::BluePath => "blue_path",
            Field::GreenPath => "green_path",
            Field::RoleArn => "role_arn",
            Field::Url => "url",
            Field::Schema => "__all__",
        }
    }
}

/// What a validation error reports.
#[derive(Debug, Clone, Copy, PartialEq, Eq, Structural)]
pub enum ErrorCode {
    /// A text is too short or too long.
    Length,
    /// A text is not a URL.
    Url,
    /// A text is not a cron expression.
    InvalidCronExpression,
    /// The two paths of a blue/green secret are the same.
    IdenticalPaths,
}

impl ErrorCode {
    /// The code's name.
    pub open spec fn spec_name(self) -> Seq<char> {
        match self {
            ErrorCode::Length => "length"@,
            ErrorCode::Url => "url"@,
            ErrorCode::InvalidCronExpression => "invalid_cron_expression"@,
            ErrorCode::IdenticalPaths => "identical_paths"@,
        }
    }

    /// The code's name, such as `"identical_paths"`.
    pub fn name(&self) -> (res: &'static str)
        ensures
            res@ == self.spec_name(),
    {
        match self {
            ErrorCode::Length => "length",
            ErrorCode::Url => "url",
            ErrorCode::InvalidCronExpression => "invalid_cron_expression",
            ErrorCode::IdenticalPaths => "identical_paths",
        }
    }
}

/// One failed check: its code and, for some, a message.
#[derive(Debug, Clone, PartialEq, Eq)]
pub struct ValidationError {
    pub code: ErrorCode,
    pub message: Option<String>,
}

/// The content of a validation error.
pub struct ValidationErrorView {
    pub code: ErrorCode,
    pub message: Option<Seq<char>>,
}

impl View for ValidationError {
    type V = ValidationErrorView;

    open spec fn view(&self) -> ValidationErrorView {
        ValidationErrorView {
            code: self.code,
            message: match self.message {
                Some(m) => Some(m@),
                None => None,
            },
        }
    }
}

/// The errors of one field.
#[derive(Debug, Clone, PartialEq, Eq)]
pub struct FieldErrors {
    pub field: Field,
    pub errors: Vec<ValidationError>,
}

/// The contents of a list of validation errors.
pub open spec fn spec_errors_view(errors: Seq<ValidationError>) -> Seq<ValidationErrorView> {
    errors.map_values(|e: ValidationError| e@)
}

impl View for FieldErrors {
    type V = (Field, Seq<ValidationErrorView>);

    open spec fn view(&self) -> (Field, Seq<ValidationErrorView>) {
        (self.field, spec_errors_view(self.errors@))
    }
}

/// What a field's entry holds: its own errors, or the field-level errors of
/// the nested structure it holds.
#[derive(Debug, Clone, PartialEq, Eq)]
pub enum ErrorsKind {
    Field(Vec<ValidationError>),
    Struct(Vec<FieldErrors>),
}

/// The content of an entry's errors.
pub enum ErrorsKindView {
    Field(Seq<ValidationErrorView>),
    Struct(Seq<(Field, Seq<ValidationErrorView>)>),
}

/// The errors reported under one field.
#[derive(Debug, Clone, PartialEq, Eq)]
pub struct ValidationEntry {
    pub field: Field,
    pub kind: ErrorsKind,
}

/// The content of an entry.
pub struct EntryView {
    pub field: Field,
    pub kind: ErrorsKindView,
}

impl View for ValidationEntry {
    type V = EntryView;

    open spec fn view(&self) -> EntryView {
        EntryView {
            field: self.field,
            kind: match self.kind {
                ErrorsKind::Field(errors) => ErrorsKindView::Field(spec_errors_view(errors@)),
                ErrorsKind::Struct(nested) => ErrorsKindView::Struct(
                    nested@.map_values(|f: FieldErrors| f@),
                ),
            },
        }
    }
}

/// The errors of a rejected request, one entry per field, in the order checked.
#[derive(Debug, Clone, PartialEq, Eq)]
pub struct ValidationErrors {
    entries: Vec<ValidationEntry>,
}

impl View for ValidationErrors {
    type V = Seq<EntryView>;

    closed spec fn view(&self) -> Seq<EntryView> {
        self.entries@.map_values(|e: ValidationEntry| e@)
    }
}

/// The error of a text whose length is out of bounds.
pub open spec fn spec_length_error() -> ValidationErrorView {
    ValidationErrorView { code: ErrorCode::Length, message: None }
}

/// The error of a text that is not a URL.
pub open spec fn spec_url_error() -> ValidationErrorView {
    ValidationErrorView { code: ErrorCode::Url, message: None }
}

/// A field's errors as an entry, when there are any.
pub open spec fn spec_field_entry(field: Field, errors: Seq<ValidationErrorView>) -> Seq<EntryView> {
    if errors.len() == 0 {
        Seq::empty()
    } else {
        seq![EntryView { field, kind: ErrorsKindView::Field(errors) }]
    }
}

/// The field-level errors of a structure, as the list a nested entry holds.
pub open spec fn spec_nested_errors(entries: Seq<EntryView>) -> Seq<(Field, Seq<ValidationErrorView>)> {
    entries.map_values(
        |e: EntryView|
            (e.field, match e.kind {
                ErrorsKindView::Field(errors) => errors,
                ErrorsKindView::Struct(_) => Seq::empty(),
            }),
    )
}

/// A nested structure's errors as an entry of the enclosing one, when there are any.
pub open spec fn spec_struct_entry(field: Field, nested: Seq<EntryView>) -> Seq<EntryView> {
    if nested.len() == 0 {
        Seq::empty()
    } else {
        seq![EntryView { field, kind: ErrorsKindView::Struct(spec_nested_errors(nested)) }]
    }
}

/// Every entry holds the errors of its field itself.
pub open spec fn spec_all_field_level(entries: Seq<EntryView>) -> bool {
    forall|i: int| 0 <= i < entries.len() ==> #[trigger] entries[i].kind is Field
}

/// The outcome of a validation whose errors are `entries`: success when there are none.
pub open spec fn spec_outcome(res: Result<(), ValidationErrors>, entries: Seq<EntryView>) -> bool {
    match res {
        Ok(()) => entries.len() == 0,
        Err(e) => entries.len() > 0 && e@ == entries,
    }
}

impl ValidationError {
    /// A copy of the error.
    pub fn copy(&self) -> (res: ValidationError)
        ensures
            res@ == self@,
    {
        let message = match &self.message {
            Some(m) => Some(m.clone()),
            None => None,
        };
        ValidationError { code: self.code, message }
    }
}

/// A copy of a list of errors.
pub fn copy_errors(errors: &Vec<ValidationError>) -> (res: Vec<ValidationError>)
    ensures
        spec_errors_view(res@) == spec_errors_view(errors@),
{
    let mut res: Vec<ValidationError> = Vec::new();
    let mut i: usize = 0;
    while i < errors.len()
        invariant
            i <= errors@.len(),
            res@.len() == i,
            forall|j: int| 0 <= j < i ==> #[trigger] res@[j]@ == errors@[j]@,
        decreases errors@.len() - i,
    {
        res.push(errors[i].copy());
        i = i + 1;
    }
    assert(spec_errors_view(res@) =~= spec_errors_view(errors@));
    res
}

/// The error of a text whose length is out of bounds.
pub fn length_error() -> (res: ValidationError)
    ensures
        res@ == spec_length_error(),
{
    ValidationError { code: ErrorCode::Length, message: None }
}

/// The error of a text that is not a URL.
pub fn url_error() -> (res: ValidationError)
    ensures
        res@ == spec_url_error(),
{
    ValidationError { code: ErrorCode::Url, message: None }
}

/// Calls `validator::ValidateLength::validate_length` on a text with a lower
/// and an upper bound. Claimed, as the crate's source shows for `String`: the
/// text passes exactly when its number of characters lies within the bounds.
#[verifier::external_body]
pub(crate) fn length_within(text: &String, min: u64, max: u64) -> (res: bool)
    ensures
        res == (min <= text@.len() && text@.len() <= max),
{
    validator::ValidateLength::validate_length(text, Some(min), Some(max), None)
}

impl ValidationErrors {
    /// No errors yet.
    pub fn new() -> (res: ValidationErrors)
        ensures
            res@ == Seq::<EntryView>::empty(),
    {
        ValidationErrors { entries: Vec::new() }
    }

    /// The entries, in the order checked.
    pub fn entries(&self) -> (res: &Vec<ValidationEntry>)
        ensures
            res@.map_values(|e: ValidationEntry| e@) == self@,
    {
        &self.entries
    }

    /// Whether there are no errors.
    pub fn is_empty(&self) -> (res: bool)
        ensures
            res == (self@.len() == 0),
    {
        self.entries.len() == 0
    }

    /// Adds the errors of a field, when there are any.
    pub fn add_field(&mut self, field: Field, errors: Vec<ValidationError>)
        ensures
            final(self)@ == old(self)@ + spec_field_entry(field, spec_errors_view(errors@)),
    {
        if errors.len() > 0 {
            self.entries.push(ValidationEntry { field, kind: ErrorsKind::Field(errors) });
            assert(self@ =~= old(self)@ + spec_field_entry(field, spec_errors_view(errors@)));
        } else {
            assert(self@ =~= old(self)@ + spec_field_entry(field, spec_errors_view(errors@)));
        }
    }

    /// Adds the errors of a nested structure's validation under a field, when
    /// it failed.
    pub fn add_nested(&mut self, field: Field, child: Result<(), ValidationErrors>)
        requires
            child matches Err(e) ==> e@.len() > 0 && spec_all_field_level(e@),
        ensures
            final(self)@ == old(self)@ + match child {
                Ok(()) => Seq::<EntryView>::empty(),
                Err(e) => spec_struct_entry(field, e@),
            },
    {
        match child {
            Ok(()) => {
                assert(self@ =~= old(self)@ + Seq::<EntryView>::empty());
            },
            Err(e) => {
                let ghost before = self@;
                let ghost nested_view = e@;
                let mut nested: Vec<FieldErrors> = Vec::new();
                let mut i: usize = 0;
                let entries = e.entries;
                assert(entries@.map_values(|x: ValidationEntry| x@) == nested_view);
                while i < entries.len()
                    invariant
                        i <= entries@.len(),
                        entries@.map_values(|x: ValidationEntry| x@) == nested_view,
                        spec_all_field_level(nested_view),
                        nested@.len() == i,
                        forall|j: int|
                            0 <= j < i ==> #[trigger] nested@[j]@ == spec_nested_errors(nested_view)[j],
                    decreases entries@.len() - i,
                {
                    assert(nested_view[i as int] == entries@[i as int]@);
                    assert(nested_view[i as int].kind is Field);
                    let entry = &entries[i];
                    let errors = match &entry.kind {
                        ErrorsKind::Field(errors) => copy_errors(errors),
                        ErrorsKind::Struct(_) => Vec::new(),
                    };
                    nested.push(FieldErrors { field: entry.field, errors });
                    assert(nested@[i as int]@ == spec_nested_errors(nested_view)[i as int]);
                    i = i + 1;
                }
                assert(nested@.map_values(|f: FieldErrors| f@) =~= spec_nested_errors(nested_view));
                self.entries.push(ValidationEntry { field, kind: ErrorsKind::Struct(nested) });
                assert(self@ =~= before + spec_struct_entry(field, nested_view));
            },
        }
    }

    /// The outcome of a validation: success when no error was found.
    pub fn into_result(self) -> (res: Result<(), ValidationErrors>)
        ensures
            spec_outcome(res, self@),
    {
        if self.entries.len() == 0 {
            Ok(())
        } else {
            Err(self)
        }
    }

    /// The errors of the fields checked directly, leaving out nested structures.
    pub fn field_errors(&self) -> (res: Vec<FieldErrors>)
        ensures
            res@.map_values(|f: FieldErrors| f@) == spec_direct_field_errors(self@),
    {
        let mut res: Vec<FieldErrors> = Vec::new();
        let mut i: usize = 0;
        while i < self.entries.len()
            invariant
                i <= self.entries@.len(),
                res@.map_values(|f: FieldErrors| f@) == spec_direct_field_errors(
                    self@.take(i as int),
                ),
            decreases self.entries@.len() - i,
        {
            let ghost prefix = self@.take(i as int);
            assert(self@.take(i + 1) =~= prefix.push(self.entries@[i as int]@));
            assert(self@.take(i + 1).drop_last() =~= prefix);
            let entry = &self.entries[i];
            match &entry.kind {
                ErrorsKind::Field(errors) => {
                    let ghost old_res = res@;
                    res.push(FieldErrors { field: entry.field, errors: copy_errors(errors) });
                    assert(res@.map_values(|f: FieldErrors| f@) =~= old_res.map_values(
                        |f: FieldErrors| f@,
                    ).push((entry.field, spec_errors_view(errors@))));
                },
                ErrorsKind::Struct(_) => {},
            }
            i = i + 1;
        }
        assert(self@.take(self.entries@.len() as int) =~= self@);
        res
    }
}

/// The field-level entries among `entries`, in order.
pub open spec fn spec_direct_field_errors(entries: Seq<EntryView>) -> Seq<(Field, Seq<ValidationErrorView>)>
    decreases entries.len(),
{
    if entries.len() == 0 {
        Seq::empty()
    } else {
        let rest = spec_direct_field_errors(entries.drop_last());
        match entries.last().kind {
            ErrorsKindView::Field(errors) => rest.push((entries.last().field, errors)),
            ErrorsKindView::Struct(_) => rest,
        }
    }
}

/// The answer to a rejected request.
#[derive(Debug, Clone, PartialEq, Eq)]
pub struct ErrorResponse {
    pub message: String,
}

/// The text of one error: its message, or `Invalid value for '<field>'`.
pub open spec fn spec_error_text(field: Field, error: ValidationErrorView) -> Seq<char> {
    match error.message {
        Some(m) => m,
        None => "Invalid value for '"@ + field.spec_name() + "'"@,
    }
}

/// The texts of a field's errors, joined by `", "`.
pub open spec fn spec_field_message(field: Field, errors: Seq<ValidationErrorView>) -> Seq<char> {
    spec_join(errors.map_values(|e: ValidationErrorView| spec_error_text(field, e)), ", "@)
}

/// The message answered to a rejected request: the messages of the fields
/// checked directly, joined by `"; "` (errors of nested structures are left out).
pub open spec fn spec_response_message(entries: Seq<EntryView>) -> Seq<char> {
    spec_join(
        spec_direct_field_errors(entries).map_values(
            |f: (Field, Seq<ValidationErrorView>)| spec_field_message(f.0, f.1),
        ),
        "; "@,
    )
}

/// The text of one error.
fn error_text(field: Field, error: &ValidationError) -> (res: String)
    ensures
        res@ == spec_error_text(field, error@),
{
    match &error.message {
        Some(m) => m.clone(),
        None => {
            let mut s = String::from_str("Invalid value for '");
            s.append(field.name());
            s.append("'");
            s
        },
    }
}

/// The message of one field's errors.
fn field_message(field: Field, errors: &Vec<ValidationError>) -> (res: String)
    ensures
        res@ == spec_field_message(field, spec_errors_view(errors@)),
{
    let ghost texts = spec_errors_view(errors@).map_values(
        |e: ValidationErrorView| spec_error_text(field, e),
    );
    let mut parts: Vec<String> = Vec::new();
    let mut i: usize = 0;
    while i < errors.len()
        invariant
            i <= errors@.len(),
            texts == spec_errors_view(errors@).map_values(
                |e: ValidationErrorView| spec_error_text(field, e),
            ),
            parts@.len() == i,
            forall|j: int| 0 <= j < i ==> #[trigger] parts@[j]@ == texts[j],
        decreases errors@.len() - i,
    {
        parts.push(error_text(field, &errors[i]));
        i = i + 1;
    }
    assert(spec_texts(parts@) =~= texts);
    join_texts(&parts, ", ")
}

impl ErrorResponse {
    /// The answer to a request rejected with these errors.
    pub fn from_validation_errors(errors: &ValidationErrors) -> (res: ErrorResponse)
        ensures
            res.message@ == spec_response_message(errors@),
    {
        let fields = errors.field_errors();
        let ghost views = fields@.map_values(|f: FieldErrors| f@);
        let ghost texts = spec_direct_field_errors(errors@).map_values(
            |f: (Field, Seq<ValidationErrorView>)| spec_field_message(f.0, f.1),
        );
        let mut parts: Vec<String> = Vec::new();
        let mut i: usize = 0;
        while i < fields.len()
            invariant
                i <= fields@.len(),
                views == fields@.map_values(|f: FieldErrors| f@),
                views == spec_direct_field_errors(errors@),
                texts == spec_direct_field_errors(errors@).map_values(
                    |f: (Field, Seq<ValidationErrorView>)| spec_field_message(f.0, f.1),
                ),
                parts@.len() == i,
                forall|j: int| 0 <= j < i ==> #[trigger] parts@[j]@ == texts[j],
            decreases fields@.len() - i,
        {
            assert(views[i as int] == fields@[i as int]@);
            parts.push(field_message(fields[i].field, &fields[i].errors));
            i = i + 1;
        }
        assert(spec_texts(parts@) =~= texts);
        ErrorResponse { message: join_texts(&parts, "; ") }
    }
}

} // verus!
