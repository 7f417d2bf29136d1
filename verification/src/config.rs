//! Environment configuration and model-contract validation.
use vstd::prelude::*;
use vstd::string::StringExecFns;

use crate::text::{
    decimal, decimal_reads_back, decimal_within, parse_u16, parse_usize, trimmed,
    trimming_is_idempotent, unsigned_decimal, usize_to_string,
};

verus! {

/// Why one setting is invalid.
#[derive(Debug)]
pub enum SettingError {
    Required { variable_name: String },
    NotAFile { variable_name: String, path: String },
    NotATcpPort { variable_name: String },
    NotAPositiveInteger { variable_name: String },
    NotANonNegativeInteger { variable_name: String },
    NotGreaterThanZero { variable_name: String },
    EmptyOutputName { variable_name: String },
    MalformedManifest,
    EmptyRepository,
    RevisionNotACommitSha,
}

/// A setting error as a mathematical value.
pub enum SettingErrorView {
    Required { variable_name: Seq<char> },
    NotAFile { variable_name: Seq<char>, path: Seq<char> },
    NotATcpPort { variable_name: Seq<char> },
    NotAPositiveInteger { variable_name: Seq<char> },
    NotANonNegativeInteger { variable_name: Seq<char> },
    NotGreaterThanZero { variable_name: Seq<char> },
    EmptyOutputName { variable_name: Seq<char> },
    MalformedManifest,
    EmptyRepository,
    RevisionNotACommitSha,
}

impl View for SettingError {
    type V = SettingErrorView;

    open spec fn view(&self) -> SettingErrorView {
        match self {
            SettingError::Required { variable_name } => SettingErrorView::Required {
                variable_name: variable_name@,
            },
            SettingError::NotAFile { variable_name, path } => SettingErrorView::NotAFile {
                variable_name: variable_name@,
                path: path@,
            },
            SettingError::NotATcpPort { variable_name } => SettingErrorView::NotATcpPort {
                variable_name: variable_name@,
            },
            SettingError::NotAPositiveInteger { variable_name } =>
                SettingErrorView::NotAPositiveInteger { variable_name: variable_name@ },
            SettingError::NotANonNegativeInteger { variable_name } =>
                SettingErrorView::NotANonNegativeInteger { variable_name: variable_name@ },
            SettingError::NotGreaterThanZero { variable_name } =>
                SettingErrorView::NotGreaterThanZero { variable_name: variable_name@ },
            SettingError::EmptyOutputName { variable_name } => SettingErrorView::EmptyOutputName {
                variable_name: variable_name@,
            },
            SettingError::MalformedManifest => SettingErrorView::MalformedManifest,
            SettingError::EmptyRepository => SettingErrorView::EmptyRepository,
            SettingError::RevisionNotACommitSha => SettingErrorView::RevisionNotACommitSha,
        }
    }
}

impl SettingErrorView {
    pub open spec fn message(self) -> Seq<char> {
        match self {
            SettingErrorView::Required { variable_name } => variable_name + " is required"@,
            SettingErrorView::NotAFile { variable_name, path } => variable_name
                + " must name a readable file, got "@ + path,
            SettingErrorView::NotATcpPort { variable_name } => variable_name
                + " must be a TCP port"@,
            SettingErrorView::NotAPositiveInteger { variable_name } => variable_name
                + " must be a positive integer"@,
            SettingErrorView::NotANonNegativeInteger { variable_name } => variable_name
                + " must be a non-negative integer"@,
            SettingErrorView::NotGreaterThanZero { variable_name } => variable_name
                + " must be greater than zero"@,
            SettingErrorView::EmptyOutputName { variable_name } => variable_name
                + " must be a non-empty ONNX output name"@,
            SettingErrorView::MalformedManifest => "parsing model manifest JSON"@,
            SettingErrorView::EmptyRepository => "model manifest repository must be non-empty"@,
            SettingErrorView::RevisionNotACommitSha =>
                "model manifest revision must be a 40-character hexadecimal commit SHA"@,
        }
    }
}

fn sentence(subject: &String, rest: &str) -> (text: String)
    ensures
        text@ == subject@ + rest@,
{
    let mut text = subject.clone();
    text.append(rest);
    text
}

impl SettingError {
    /// The error in words.
    pub fn message(&self) -> (text: String)
        ensures
            text@ == self@.message(),
    {
        match self {
            SettingError::Required { variable_name } => sentence(variable_name, " is required"),
            SettingError::NotAFile { variable_name, path } => {
                let mut text = sentence(variable_name, " must name a readable file, got ");
                text.append(path.as_str());
                text
            },
            SettingError::NotATcpPort { variable_name } => sentence(
                variable_name,
                " must be a TCP port",
            ),
            SettingError::NotAPositiveInteger { variable_name } => sentence(
                variable_name,
                " must be a positive integer",
            ),
            SettingError::NotANonNegativeInteger { variable_name } => sentence(
                variable_name,
                " must be a non-negative integer",
            ),
            SettingError::NotGreaterThanZero { variable_name } => sentence(
                variable_name,
                " must be greater than zero",
            ),
            SettingError::EmptyOutputName { variable_name } => sentence(
                variable_name,
                " must be a non-empty ONNX output name",
            ),
            SettingError::MalformedManifest => "parsing model manifest JSON".to_owned(),
            SettingError::EmptyRepository => {
                "model manifest repository must be non-empty".to_owned()
            },
            SettingError::RevisionNotACommitSha => {
                "model manifest revision must be a 40-character hexadecimal commit SHA".to_owned()
            },
        }
    }
}

/// A result with its value and its error taken by their views.
pub open spec fn outcome<T: View>(result: Result<T, SettingError>) -> Result<
    T::V,
    SettingErrorView,
> {
    match result {
        Ok(value) => Ok(value@),
        Err(error) => Err(error@),
    }
}

/// The text of a variable, if it is set.
pub open spec fn set_text(value: Option<String>) -> Option<Seq<char>> {
    match value {
        Some(text) => Some(text@),
        None => None,
    }
}

/// What a variable says: its text without the white space around it. A blank
/// variable says nothing.
pub open spec fn nonempty(value: Option<Seq<char>>) -> Option<Seq<char>> {
    match value {
        Some(text) if trimmed(text).len() > 0 => Some(trimmed(text)),
        _ => None,
    }
}

/// What a variable says, given what the environment holds for it.
pub fn read_nonempty(value: &Option<String>) -> (said: Option<String>)
    ensures
        set_text(said) == nonempty(set_text(*value)),
{
    match value {
        Some(text) => {
            let rest = text.as_str().trim();
            if rest.is_empty() {
                None
            } else {
                Some(rest.to_owned())
            }
        },
        None => None,
    }
}

/// A TCP port that has already been checked to be usable by a listener.
#[derive(Clone, Copy, Debug)]
pub struct ServicePort(u16);

impl View for ServicePort {
    type V = u16;

    closed spec fn view(&self) -> u16 {
        self.0
    }
}

/// The port that `raw_value` denotes.
pub open spec fn parsed_port(variable_name: Seq<char>, raw_value: Seq<char>) -> Result<
    u16,
    SettingErrorView,
> {
    match decimal_within(raw_value, u16::MAX as nat) {
        None => Err(SettingErrorView::NotATcpPort { variable_name }),
        Some(value) => if value == 0 {
            Err(SettingErrorView::NotGreaterThanZero { variable_name })
        } else {
            Ok(value as u16)
        },
    }
}

/// The port that a variable says, or the default.
pub open spec fn port_setting(
    variable_name: Seq<char>,
    value: Option<Seq<char>>,
    default_value: u16,
) -> Result<u16, SettingErrorView> {
    match nonempty(value) {
        Some(raw_value) => parsed_port(variable_name, raw_value),
        None => parsed_port(variable_name, decimal(default_value as nat)),
    }
}

impl ServicePort {
    #[verifier::type_invariant]
    spec fn usable(self) -> bool {
        self.0 > 0
    }

    pub fn from_environment(
        variable_name: &str,
        value: &Option<String>,
        default_value: u16,
    ) -> (result: Result<ServicePort, SettingError>)
        ensures
            outcome(result) == port_setting(variable_name@, set_text(*value), default_value),
    {
        match read_nonempty(value) {
            Some(raw_value) => Self::parse(variable_name, raw_value.as_str()),
            None => Self::parse(variable_name, usize_to_string(default_value as usize).as_str()),
        }
    }

    pub fn parse(variable_name: &str, raw_value: &str) -> (result: Result<
        ServicePort,
        SettingError,
    >)
        ensures
            outcome(result) == parsed_port(variable_name@, raw_value@),
    {
        match parse_u16(raw_value) {
            None => Err(SettingError::NotATcpPort { variable_name: variable_name.to_owned() }),
            Some(value) => if value == 0 {
                Err(SettingError::NotGreaterThanZero { variable_name: variable_name.to_owned() })
            } else {
                Ok(ServicePort(value))
            },
        }
    }

    pub fn get(self) -> (port: u16)
        ensures
            port == self@,
            port > 0,
    {
        proof {
            use_type_invariant(&self);
        }
        self.0
    }
}

/// A nonzero operational limit, used for model and CPU resource budgets.
#[derive(Clone, Copy, Debug)]
pub struct PositiveCount(usize);

impl View for PositiveCount {
    type V = usize;

    closed spec fn view(&self) -> usize {
        self.0
    }
}

/// The positive number that `raw_value` denotes.
pub open spec fn parsed_positive(variable_name: Seq<char>, raw_value: Seq<char>) -> Result<
    usize,
    SettingErrorView,
> {
    match decimal_within(raw_value, usize::MAX as nat) {
        None => Err(SettingErrorView::NotAPositiveInteger { variable_name }),
        Some(value) => if value == 0 {
            Err(SettingErrorView::NotGreaterThanZero { variable_name })
        } else {
            Ok(value as usize)
        },
    }
}

/// The positive number that a variable says, or the default.
pub open spec fn positive_setting(
    variable_name: Seq<char>,
    value: Option<Seq<char>>,
    default_value: usize,
) -> Result<usize, SettingErrorView> {
    match nonempty(value) {
        Some(raw_value) => parsed_positive(variable_name, raw_value),
        None => parsed_positive(variable_name, decimal(default_value as nat)),
    }
}

impl PositiveCount {
    #[verifier::type_invariant]
    spec fn positive(self) -> bool {
        self.0 > 0
    }

    pub fn from_environment(
        variable_name: &str,
        value: &Option<String>,
        default_value: usize,
    ) -> (result: Result<PositiveCount, SettingError>)
        ensures
            outcome(result) == positive_setting(variable_name@, set_text(*value), default_value),
    {
        match read_nonempty(value) {
            Some(raw_value) => Self::parse(variable_name, raw_value.as_str()),
            None => Self::parse(variable_name, usize_to_string(default_value).as_str()),
        }
    }

    pub fn parse(variable_name: &str, raw_value: &str) -> (result: Result<
        PositiveCount,
        SettingError,
    >)
        ensures
            outcome(result) == parsed_positive(variable_name@, raw_value@),
    {
        match parse_usize(raw_value) {
            None => Err(
                SettingError::NotAPositiveInteger { variable_name: variable_name.to_owned() },
            ),
            Some(value) => if value == 0 {
                Err(SettingError::NotGreaterThanZero { variable_name: variable_name.to_owned() })
            } else {
                Ok(PositiveCount(value))
            },
        }
    }

    pub fn get(self) -> (count: usize)
        ensures
            count == self@,
            count > 0,
    {
        proof {
            use_type_invariant(&self);
        }
        self.0
    }
}

/// An operational limit where zero deliberately disables pending work.
#[derive(Clone, Copy, Debug)]
pub struct NonNegativeCount(usize);

impl View for NonNegativeCount {
    type V = usize;

    closed spec fn view(&self) -> usize {
        self.0
    }
}

/// The number that `raw_value` denotes.
pub open spec fn parsed_non_negative(variable_name: Seq<char>, raw_value: Seq<char>) -> Result<
    usize,
    SettingErrorView,
> {
    match decimal_within(raw_value, usize::MAX as nat) {
        None => Err(SettingErrorView::NotANonNegativeInteger { variable_name }),
        Some(value) => Ok(value as usize),
    }
}

/// The number that a variable says, or the default.
pub open spec fn non_negative_setting(
    variable_name: Seq<char>,
    value: Option<Seq<char>>,
    default_value: usize,
) -> Result<usize, SettingErrorView> {
    match nonempty(value) {
        Some(raw_value) => parsed_non_negative(variable_name, raw_value),
        None => Ok(default_value),
    }
}

impl NonNegativeCount {
    pub fn from_environment(
        variable_name: &str,
        value: &Option<String>,
        default_value: usize,
    ) -> (result: Result<NonNegativeCount, SettingError>)
        ensures
            outcome(result) == non_negative_setting(
                variable_name@,
                set_text(*value),
                default_value,
            ),
    {
        match read_nonempty(value) {
            Some(raw_value) => Self::parse(variable_name, raw_value.as_str()),
            None => Ok(NonNegativeCount(default_value)),
        }
    }

    pub fn parse(variable_name: &str, raw_value: &str) -> (result: Result<
        NonNegativeCount,
        SettingError,
    >)
        ensures
            outcome(result) == parsed_non_negative(variable_name@, raw_value@),
    {
        match parse_usize(raw_value) {
            None => Err(
                SettingError::NotANonNegativeInteger { variable_name: variable_name.to_owned() },
            ),
            Some(value) => Ok(NonNegativeCount(value)),
        }
    }

    pub fn get(self) -> (count: usize)
        ensures
            count == self@,
    {
        self.0
    }
}

/// A local artifact that has been checked to be a regular file at startup.
#[derive(Debug)]
pub struct ExistingFilePath(String);

impl Clone for ExistingFilePath {
    fn clone(&self) -> (copy: ExistingFilePath)
        ensures
            copy@ == self@,
    {
        ExistingFilePath(self.0.clone())
    }
}

impl View for ExistingFilePath {
    type V = Seq<char>;

    closed spec fn view(&self) -> Seq<char> {
        self.0@
    }
}

/// A variable that names a file.
#[derive(Debug)]
pub struct FileVariable {
    /// What the environment holds for it.
    pub value: Option<String>,
    /// Whether a regular file has the name that the variable says.
    pub is_file: bool,
}

/// A file variable as a mathematical value.
pub struct FileVariableView {
    pub value: Option<Seq<char>>,
    pub is_file: bool,
}

impl View for FileVariable {
    type V = FileVariableView;

    open spec fn view(&self) -> FileVariableView {
        FileVariableView { value: set_text(self.value), is_file: self.is_file }
    }
}

/// The file that a variable names; there is no default.
pub open spec fn file_setting(variable_name: Seq<char>, variable: FileVariableView) -> Result<
    Seq<char>,
    SettingErrorView,
> {
    match nonempty(variable.value) {
        None => Err(SettingErrorView::Required { variable_name }),
        Some(path) => if variable.is_file {
            Ok(path)
        } else {
            Err(SettingErrorView::NotAFile { variable_name, path })
        },
    }
}

impl ExistingFilePath {
    pub fn from_environment(variable_name: &str, variable: &FileVariable) -> (result: Result<
        ExistingFilePath,
        SettingError,
    >)
        ensures
            outcome(result) == file_setting(variable_name@, variable@),
    {
        match read_nonempty(&variable.value) {
            None => Err(SettingError::Required { variable_name: variable_name.to_owned() }),
            Some(path) => if variable.is_file {
                Ok(ExistingFilePath(path))
            } else {
                Err(SettingError::NotAFile { variable_name: variable_name.to_owned(), path })
            },
        }
    }

    pub fn as_path(&self) -> (path: &str)
        ensures
            path@ == self@,
    {
        self.0.as_str()
    }
}

/// The named tensor returned by the configured text-tower ONNX graph.
#[derive(Debug)]
pub struct OnnxOutputName(String);

impl Clone for OnnxOutputName {
    fn clone(&self) -> (copy: OnnxOutputName)
        ensures
            copy@ == self@,
    {
        OnnxOutputName(self.0.clone())
    }
}

impl View for OnnxOutputName {
    type V = Seq<char>;

    closed spec fn view(&self) -> Seq<char> {
        self.0@
    }
}

pub open spec fn parsed_output_name(variable_name: Seq<char>, value: Seq<char>) -> Result<
    Seq<char>,
    SettingErrorView,
> {
    if value.len() == 0 {
        Err(SettingErrorView::EmptyOutputName { variable_name })
    } else {
        Ok(value)
    }
}

/// The output name that a variable says, or the default.
pub open spec fn output_name_setting(
    variable_name: Seq<char>,
    value: Option<Seq<char>>,
    default_value: Seq<char>,
) -> Result<Seq<char>, SettingErrorView> {
    match nonempty(value) {
        Some(name) => parsed_output_name(variable_name, name),
        None => parsed_output_name(variable_name, default_value),
    }
}

impl OnnxOutputName {
    pub fn from_environment(
        variable_name: &str,
        value: &Option<String>,
        default_value: &str,
    ) -> (result: Result<OnnxOutputName, SettingError>)
        ensures
            outcome(result) == output_name_setting(
                variable_name@,
                set_text(*value),
                default_value@,
            ),
    {
        let raw_value = match read_nonempty(value) {
            Some(name) => name,
            None => default_value.to_owned(),
        };
        Self::parse(variable_name, raw_value)
    }

    pub fn parse(variable_name: &str, value: String) -> (result: Result<
        OnnxOutputName,
        SettingError,
    >)
        ensures
            outcome(result) == parsed_output_name(variable_name@, value@),
    {
        if value.as_str().is_empty() {
            Err(SettingError::EmptyOutputName { variable_name: variable_name.to_owned() })
        } else {
            Ok(OnnxOutputName(value))
        }
    }

    pub fn as_str(&self) -> (name: &str)
        ensures
            name@ == self@,
    {
        self.0.as_str()
    }
}

/// The repository that a model comes from.
#[derive(Debug)]
pub struct ModelIdentifier(String);

impl Clone for ModelIdentifier {
    fn clone(&self) -> (copy: ModelIdentifier)
        ensures
            copy@ == self@,
    {
        ModelIdentifier(self.0.clone())
    }
}

impl View for ModelIdentifier {
    type V = Seq<char>;

    closed spec fn view(&self) -> Seq<char> {
        self.0@
    }
}

pub open spec fn parsed_identifier(raw_value: Seq<char>) -> Result<Seq<char>, SettingErrorView> {
    if trimmed(raw_value).len() == 0 {
        Err(SettingErrorView::EmptyRepository)
    } else {
        Ok(trimmed(raw_value))
    }
}

impl ModelIdentifier {
    pub fn parse(raw_value: String) -> (result: Result<ModelIdentifier, SettingError>)
        ensures
            outcome(result) == parsed_identifier(raw_value@),
    {
        let model_id = raw_value.as_str().trim();
        if model_id.is_empty() {
            Err(SettingError::EmptyRepository)
        } else {
            Ok(ModelIdentifier(model_id.to_owned()))
        }
    }

    pub fn as_str(&self) -> (model_id: &str)
        ensures
            model_id@ == self@,
    {
        self.0.as_str()
    }
}

/// The commit that a model was taken from.
#[derive(Debug)]
pub struct ModelRevision(String);

impl Clone for ModelRevision {
    fn clone(&self) -> (copy: ModelRevision)
        ensures
            copy@ == self@,
    {
        ModelRevision(self.0.clone())
    }
}

impl View for ModelRevision {
    type V = Seq<char>;

    closed spec fn view(&self) -> Seq<char> {
        self.0@
    }
}

pub open spec fn is_hex_digit(c: char) -> bool {
    ||| '0' <= c <= '9'
    ||| 'a' <= c <= 'f'
    ||| 'A' <= c <= 'F'
}

/// A full commit SHA: forty hexadecimal digits.
pub open spec fn is_commit_sha(text: Seq<char>) -> bool {
    &&& text.len() == 40
    &&& forall|i: int| 0 <= i < text.len() ==> is_hex_digit(#[trigger] text[i])
}

pub open spec fn parsed_revision(raw_value: Seq<char>) -> Result<Seq<char>, SettingErrorView> {
    if is_commit_sha(trimmed(raw_value)) {
        Ok(trimmed(raw_value))
    } else {
        Err(SettingErrorView::RevisionNotACommitSha)
    }
}

fn names_commit(text: &str) -> (commit: bool)
    ensures
        commit == is_commit_sha(text@),
{
    broadcast use vstd::string::is_ascii_spec_bytes;

    if !text.is_ascii() {
        assert(!is_commit_sha(text@));
        return false;
    }
    let bytes = text.as_bytes();
    if bytes.len() != 40 {
        return false;
    }
    let mut position: usize = 0;
    while position < bytes.len()
        invariant
            bytes@.len() == 40,
            bytes@ == Seq::new(text@.len(), |i: int| text@[i] as u8),
            vstd::utf8::is_ascii_chars(text@),
            position <= bytes@.len(),
            forall|i: int| 0 <= i < position ==> is_hex_digit(#[trigger] text@[i]),
        decreases bytes@.len() - position,
    {
        let byte: u8 = bytes[position];
        let ghost letter = text@[position as int];
        assert('\0' <= letter <= '\u{7f}');
        assert(byte == letter as u8);
        assert(byte as u32 == letter as u32);
        let digit: bool = (48 <= byte && byte <= 57) || (97 <= byte && byte <= 102) || (65 <= byte
            && byte <= 70);
        if !digit {
            assert(!is_hex_digit(letter));
            return false;
        }
        assert(is_hex_digit(letter));
        position += 1;
    }
    true
}

impl ModelRevision {
    pub fn parse(raw_value: String) -> (result: Result<ModelRevision, SettingError>)
        ensures
            outcome(result) == parsed_revision(raw_value@),
    {
        let model_revision = raw_value.as_str().trim();
        if names_commit(model_revision) {
            Ok(ModelRevision(model_revision.to_owned()))
        } else {
            Err(SettingError::RevisionNotACommitSha)
        }
    }

    pub fn as_str(&self) -> (model_revision: &str)
        ensures
            model_revision@ == self@,
    {
        self.0.as_str()
    }
}

/// The fields of a model manifest that matter here. Other fields are ignored.
#[derive(Debug)]
pub struct ModelManifestDocument {
    pub repository: String,
    pub revision: String,
    pub embedding_dimension: usize,
    pub text_max_token_length: usize,
}

/// A manifest document as a mathematical value.
pub struct ModelManifestDocumentView {
    pub repository: Seq<char>,
    pub revision: Seq<char>,
    pub embedding_dimension: usize,
    pub text_max_token_length: usize,
}

impl View for ModelManifestDocument {
    type V = ModelManifestDocumentView;

    open spec fn view(&self) -> ModelManifestDocumentView {
        ModelManifestDocumentView {
            repository: self.repository@,
            revision: self.revision@,
            embedding_dimension: self.embedding_dimension,
            text_max_token_length: self.text_max_token_length,
        }
    }
}

/// A model identity and vector shape that cannot be partially configured.
#[derive(Debug)]
pub struct ModelContract {
    model_id: ModelIdentifier,
    model_revision: ModelRevision,
    embedding_dimension: PositiveCount,
    text_max_token_length: PositiveCount,
}

impl Clone for ModelContract {
    fn clone(&self) -> (copy: ModelContract)
        ensures
            copy@ == self@,
    {
        ModelContract {
            model_id: self.model_id.clone(),
            model_revision: self.model_revision.clone(),
            embedding_dimension: self.embedding_dimension,
            text_max_token_length: self.text_max_token_length,
        }
    }
}

/// A model contract as a mathematical value.
pub struct ModelContractView {
    pub model_id: Seq<char>,
    pub model_revision: Seq<char>,
    pub embedding_dimension: usize,
    pub text_max_token_length: usize,
}

impl View for ModelContract {
    type V = ModelContractView;

    closed spec fn view(&self) -> ModelContractView {
        ModelContractView {
            model_id: self.model_id@,
            model_revision: self.model_revision@,
            embedding_dimension: self.embedding_dimension@,
            text_max_token_length: self.text_max_token_length@,
        }
    }
}

/// The contract that a manifest document states. The first field that is
/// invalid decides the error.
pub open spec fn contract_of(document: ModelManifestDocumentView) -> Result<
    ModelContractView,
    SettingErrorView,
> {
    let model_id = parsed_identifier(document.repository);
    let model_revision = parsed_revision(document.revision);
    if model_id is Err {
        Err(model_id->Err_0)
    } else if model_revision is Err {
        Err(model_revision->Err_0)
    } else if document.embedding_dimension == 0 {
        Err(
            SettingErrorView::NotGreaterThanZero {
                variable_name: "model manifest embedding_dimension"@,
            },
        )
    } else if document.text_max_token_length == 0 {
        Err(
            SettingErrorView::NotGreaterThanZero {
                variable_name: "model manifest text_max_token_length"@,
            },
        )
    } else {
        Ok(
            ModelContractView {
                model_id: model_id->Ok_0,
                model_revision: model_revision->Ok_0,
                embedding_dimension: document.embedding_dimension,
                text_max_token_length: document.text_max_token_length,
            },
        )
    }
}

impl ModelContract {
    /// Holds a manifest to a complete, immutable contract.
    pub fn from_document(document: ModelManifestDocument) -> (result: Result<
        ModelContract,
        SettingError,
    >)
        ensures
            outcome(result) == contract_of(document@),
    {
        proof {
            decimal_reads_back(document.embedding_dimension as nat);
            decimal_reads_back(document.text_max_token_length as nat);
        }
        let model_id = match ModelIdentifier::parse(document.repository) {
            Ok(model_id) => model_id,
            Err(error) => return Err(error),
        };
        let model_revision = match ModelRevision::parse(document.revision) {
            Ok(model_revision) => model_revision,
            Err(error) => return Err(error),
        };
        let embedding_dimension = match PositiveCount::parse(
            "model manifest embedding_dimension",
            usize_to_string(document.embedding_dimension).as_str(),
        ) {
            Ok(count) => count,
            Err(error) => return Err(error),
        };
        let text_max_token_length = match PositiveCount::parse(
            "model manifest text_max_token_length",
            usize_to_string(document.text_max_token_length).as_str(),
        ) {
            Ok(count) => count,
            Err(error) => return Err(error),
        };
        Ok(
            ModelContract {
                model_id,
                model_revision,
                embedding_dimension,
                text_max_token_length,
            },
        )
    }

    pub fn model_id(&self) -> (model_id: &str)
        ensures
            model_id@ == self@.model_id,
    {
        self.model_id.as_str()
    }

    pub fn model_revision(&self) -> (model_revision: &str)
        ensures
            model_revision@ == self@.model_revision,
    {
        self.model_revision.as_str()
    }

    pub fn embedding_dimension(&self) -> (dimension: usize)
        ensures
            dimension == self@.embedding_dimension,
            dimension > 0,
    {
        self.embedding_dimension.get()
    }

    pub fn text_max_token_length(&self) -> (length: usize)
        ensures
            length == self@.text_max_token_length,
            length > 0,
    {
        self.text_max_token_length.get()
    }
}

/// What became of the manifest file.
#[derive(Debug)]
pub enum ManifestReading {
    /// It could not be read as text.
    Unreadable,
    /// It is not a JSON document with the required fields.
    Malformed,
    Document(ModelManifestDocument),
}

/// A manifest reading as a mathematical value.
pub enum ManifestReadingView {
    Unreadable,
    Malformed,
    Document(ModelManifestDocumentView),
}

impl View for ManifestReading {
    type V = ManifestReadingView;

    open spec fn view(&self) -> ManifestReadingView {
        match self {
            ManifestReading::Unreadable => ManifestReadingView::Unreadable,
            ManifestReading::Malformed => ManifestReadingView::Malformed,
            ManifestReading::Document(document) => ManifestReadingView::Document(document@),
        }
    }
}

/// Why the service cannot be configured.
#[derive(Debug)]
pub enum ConfigError {
    Setting(SettingError),
    UnreadableManifest { manifest_path: String },
    InvalidManifest { manifest_path: String, cause: SettingError },
}

/// A configuration error as a mathematical value.
pub enum ConfigErrorView {
    Setting(SettingErrorView),
    UnreadableManifest { manifest_path: Seq<char> },
    InvalidManifest { manifest_path: Seq<char>, cause: SettingErrorView },
}

impl View for ConfigError {
    type V = ConfigErrorView;

    open spec fn view(&self) -> ConfigErrorView {
        match self {
            ConfigError::Setting(error) => ConfigErrorView::Setting(error@),
            ConfigError::UnreadableManifest { manifest_path } =>
                ConfigErrorView::UnreadableManifest { manifest_path: manifest_path@ },
            ConfigError::InvalidManifest { manifest_path, cause } =>
                ConfigErrorView::InvalidManifest { manifest_path: manifest_path@, cause: cause@ },
        }
    }
}

impl ConfigErrorView {
    pub open spec fn message(self) -> Seq<char> {
        match self {
            ConfigErrorView::Setting(error) => error.message(),
            ConfigErrorView::UnreadableManifest { manifest_path } => "reading model manifest "@
                + manifest_path,
            ConfigErrorView::InvalidManifest { manifest_path, cause } =>
                "validating model manifest "@ + manifest_path,
        }
    }
}

impl ConfigError {
    /// The error in words.
    pub fn message(&self) -> (text: String)
        ensures
            text@ == self@.message(),
    {
        match self {
            ConfigError::Setting(error) => error.message(),
            ConfigError::UnreadableManifest { manifest_path } => {
                let mut text = "reading model manifest ".to_owned();
                text.append(manifest_path.as_str());
                text
            },
            ConfigError::InvalidManifest { manifest_path, .. } => {
                let mut text = "validating model manifest ".to_owned();
                text.append(manifest_path.as_str());
                text
            },
        }
    }
}

/// The contract that a manifest file states.
pub open spec fn loaded_contract(manifest_path: Seq<char>, reading: ManifestReadingView) -> Result<
    ModelContractView,
    ConfigErrorView,
> {
    match reading {
        ManifestReadingView::Unreadable => Err(
            ConfigErrorView::UnreadableManifest { manifest_path },
        ),
        ManifestReadingView::Malformed => Err(
            ConfigErrorView::InvalidManifest {
                manifest_path,
                cause: SettingErrorView::MalformedManifest,
            },
        ),
        ManifestReadingView::Document(document) => match contract_of(document) {
            Ok(contract) => Ok(contract),
            Err(cause) => Err(ConfigErrorView::InvalidManifest { manifest_path, cause }),
        },
    }
}

/// What the environment holds when the service starts.
#[derive(Debug)]
pub struct Environment {
    pub model_manifest_path: FileVariable,
    pub manifest: ManifestReading,
    pub port: Option<String>,
    pub onnx_model_path: FileVariable,
    pub tokenizer_path: FileVariable,
    pub ort_library_path: FileVariable,
    pub onnx_output_name: Option<String>,
    pub max_text_batch_size: Option<String>,
    pub ort_session_count: Option<String>,
    pub ort_intra_op_threads: Option<String>,
    pub max_pending_text_requests: Option<String>,
}

/// An environment as a mathematical value.
pub struct EnvironmentView {
    pub model_manifest_path: FileVariableView,
    pub manifest: ManifestReadingView,
    pub port: Option<Seq<char>>,
    pub onnx_model_path: FileVariableView,
    pub tokenizer_path: FileVariableView,
    pub ort_library_path: FileVariableView,
    pub onnx_output_name: Option<Seq<char>>,
    pub max_text_batch_size: Option<Seq<char>>,
    pub ort_session_count: Option<Seq<char>>,
    pub ort_intra_op_threads: Option<Seq<char>>,
    pub max_pending_text_requests: Option<Seq<char>>,
}

impl View for Environment {
    type V = EnvironmentView;

    open spec fn view(&self) -> EnvironmentView {
        EnvironmentView {
            model_manifest_path: self.model_manifest_path@,
            manifest: self.manifest@,
            port: set_text(self.port),
            onnx_model_path: self.onnx_model_path@,
            tokenizer_path: self.tokenizer_path@,
            ort_library_path: self.ort_library_path@,
            onnx_output_name: set_text(self.onnx_output_name),
            max_text_batch_size: set_text(self.max_text_batch_size),
            ort_session_count: set_text(self.ort_session_count),
            ort_intra_op_threads: set_text(self.ort_intra_op_threads),
            max_pending_text_requests: set_text(self.max_pending_text_requests),
        }
    }
}

/// Process configuration resolved and validated once during startup.
#[derive(Debug)]
pub struct ServiceConfig {
    port: ServicePort,
    model_path: ExistingFilePath,
    tokenizer_path: ExistingFilePath,
    onnx_runtime_library_path: ExistingFilePath,
    output_name: OnnxOutputName,
    maximum_batch_size: PositiveCount,
    session_count: PositiveCount,
    intra_operation_threads: PositiveCount,
    maximum_pending_requests: NonNegativeCount,
    model_contract: ModelContract,
}

/// A configuration as a mathematical value.
pub struct ServiceConfigView {
    pub port: u16,
    pub model_path: Seq<char>,
    pub tokenizer_path: Seq<char>,
    pub onnx_runtime_library_path: Seq<char>,
    pub output_name: Seq<char>,
    pub maximum_batch_size: usize,
    pub session_count: usize,
    pub intra_operation_threads: usize,
    pub maximum_pending_requests: usize,
    pub model_contract: ModelContractView,
}

impl View for ServiceConfig {
    type V = ServiceConfigView;

    closed spec fn view(&self) -> ServiceConfigView {
        ServiceConfigView {
            port: self.port@,
            model_path: self.model_path@,
            tokenizer_path: self.tokenizer_path@,
            onnx_runtime_library_path: self.onnx_runtime_library_path@,
            output_name: self.output_name@,
            maximum_batch_size: self.maximum_batch_size@,
            session_count: self.session_count@,
            intra_operation_threads: self.intra_operation_threads@,
            maximum_pending_requests: self.maximum_pending_requests@,
            model_contract: self.model_contract@,
        }
    }
}

impl Clone for ServiceConfig {
    fn clone(&self) -> (copy: ServiceConfig)
        ensures
            copy@ == self@,
    {
        ServiceConfig {
            port: self.port,
            model_path: self.model_path.clone(),
            tokenizer_path: self.tokenizer_path.clone(),
            onnx_runtime_library_path: self.onnx_runtime_library_path.clone(),
            output_name: self.output_name.clone(),
            maximum_batch_size: self.maximum_batch_size,
            session_count: self.session_count,
            intra_operation_threads: self.intra_operation_threads,
            maximum_pending_requests: self.maximum_pending_requests,
            model_contract: self.model_contract.clone(),
        }
    }
}

/// Names the model manifest.
pub const MODEL_MANIFEST_PATH: &'static str = "SIGLIP_MODEL_MANIFEST_PATH";

/// The port to listen on.
pub const PORT: &'static str = "SIGLIP_PORT";

/// Names the exported graph.
pub const ONNX_MODEL_PATH: &'static str = "SIGLIP_ONNX_MODEL_PATH";

/// Names the tokenizer.
pub const TOKENIZER_PATH: &'static str = "SIGLIP_TOKENIZER_PATH";

/// Names the ONNX Runtime shared library.
pub const ORT_LIBRARY_PATH: &'static str = "SIGLIP_ORT_LIBRARY_PATH";

/// The output of the graph that holds the vectors.
pub const ONNX_OUTPUT_NAME: &'static str = "SIGLIP_ONNX_OUTPUT_NAME";

/// How many inputs a request may hold.
pub const MAX_TEXT_BATCH_SIZE: &'static str = "SIGLIP_MAX_TEXT_BATCH_SIZE";

/// How many sessions run side by side.
pub const ORT_SESSION_COUNT: &'static str = "SIGLIP_ORT_SESSION_COUNT";

/// How many threads a session has.
pub const ORT_INTRA_OP_THREADS: &'static str = "SIGLIP_ORT_INTRA_OP_THREADS";

/// How many requests may wait for a session.
pub const MAX_PENDING_TEXT_REQUESTS: &'static str = "SIGLIP_MAX_PENDING_TEXT_REQUESTS";

/// The configuration that an environment describes. Settings are looked at in
/// a fixed order, and the first that is invalid decides the error.
pub open spec fn configured(environment: EnvironmentView) -> Result<
    ServiceConfigView,
    ConfigErrorView,
> {
    let manifest_path = file_setting(MODEL_MANIFEST_PATH@, environment.model_manifest_path);
    let contract = loaded_contract(manifest_path->Ok_0, environment.manifest);
    let port = port_setting(PORT@, environment.port, 8000);
    let model_path = file_setting(ONNX_MODEL_PATH@, environment.onnx_model_path);
    let tokenizer_path = file_setting(TOKENIZER_PATH@, environment.tokenizer_path);
    let library_path = file_setting(ORT_LIBRARY_PATH@, environment.ort_library_path);
    let output_name = output_name_setting(
        ONNX_OUTPUT_NAME@,
        environment.onnx_output_name,
        "text_embeds"@,
    );
    let batch_size = positive_setting(MAX_TEXT_BATCH_SIZE@, environment.max_text_batch_size, 32);
    let session_count = positive_setting(ORT_SESSION_COUNT@, environment.ort_session_count, 1);
    let threads = positive_setting(ORT_INTRA_OP_THREADS@, environment.ort_intra_op_threads, 1);
    let pending = non_negative_setting(
        MAX_PENDING_TEXT_REQUESTS@,
        environment.max_pending_text_requests,
        32,
    );
    if manifest_path is Err {
        Err(ConfigErrorView::Setting(manifest_path->Err_0))
    } else if contract is Err {
        Err(contract->Err_0)
    } else if port is Err {
        Err(ConfigErrorView::Setting(port->Err_0))
    } else if model_path is Err {
        Err(ConfigErrorView::Setting(model_path->Err_0))
    } else if tokenizer_path is Err {
        Err(ConfigErrorView::Setting(tokenizer_path->Err_0))
    } else if library_path is Err {
        Err(ConfigErrorView::Setting(library_path->Err_0))
    } else if output_name is Err {
        Err(ConfigErrorView::Setting(output_name->Err_0))
    } else if batch_size is Err {
        Err(ConfigErrorView::Setting(batch_size->Err_0))
    } else if session_count is Err {
        Err(ConfigErrorView::Setting(session_count->Err_0))
    } else if threads is Err {
        Err(ConfigErrorView::Setting(threads->Err_0))
    } else if pending is Err {
        Err(ConfigErrorView::Setting(pending->Err_0))
    } else {
        Ok(
            ServiceConfigView {
                port: port->Ok_0,
                model_path: model_path->Ok_0,
                tokenizer_path: tokenizer_path->Ok_0,
                onnx_runtime_library_path: library_path->Ok_0,
                output_name: output_name->Ok_0,
                maximum_batch_size: batch_size->Ok_0,
                session_count: session_count->Ok_0,
                intra_operation_threads: threads->Ok_0,
                maximum_pending_requests: pending->Ok_0,
                model_contract: contract->Ok_0,
            },
        )
    }
}

impl ModelContract {
    /// The contract that a manifest file states, given what became of the file.
    pub fn load(manifest_path: &str, reading: ManifestReading) -> (result: Result<
        ModelContract,
        ConfigError,
    >)
        ensures
            loaded_contract(manifest_path@, reading@) == match result {
                Ok(contract) => Ok(contract@),
                Err(error) => Err(error@),
            },
    {
        match reading {
            ManifestReading::Unreadable => Err(
                ConfigError::UnreadableManifest { manifest_path: manifest_path.to_owned() },
            ),
            ManifestReading::Malformed => Err(
                ConfigError::InvalidManifest {
                    manifest_path: manifest_path.to_owned(),
                    cause: SettingError::MalformedManifest,
                },
            ),
            ManifestReading::Document(document) => match Self::from_document(document) {
                Ok(contract) => Ok(contract),
                Err(cause) => Err(
                    ConfigError::InvalidManifest { manifest_path: manifest_path.to_owned(), cause },
                ),
            },
        }
    }
}

impl ServiceConfig {
    /// The configuration that the environment describes. Every model and
    /// runtime path is required, so startup cannot fetch mutable artifacts.
    pub fn from_environment(environment: Environment) -> (result: Result<
        ServiceConfig,
        ConfigError,
    >)
        ensures
            configured(environment@) == match result {
                Ok(config) => Ok(config@),
                Err(error) => Err(error@),
            },
    {
        let manifest_path = match ExistingFilePath::from_environment(
            MODEL_MANIFEST_PATH,
            &environment.model_manifest_path,
        ) {
            Ok(path) => path,
            Err(error) => return Err(ConfigError::Setting(error)),
        };
        let model_contract = match ModelContract::load(
            manifest_path.as_path(),
            environment.manifest,
        ) {
            Ok(contract) => contract,
            Err(error) => return Err(error),
        };
        let port = match ServicePort::from_environment(PORT, &environment.port, 8000) {
            Ok(port) => port,
            Err(error) => return Err(ConfigError::Setting(error)),
        };
        let model_path = match ExistingFilePath::from_environment(
            ONNX_MODEL_PATH,
            &environment.onnx_model_path,
        ) {
            Ok(path) => path,
            Err(error) => return Err(ConfigError::Setting(error)),
        };
        let tokenizer_path = match ExistingFilePath::from_environment(
            TOKENIZER_PATH,
            &environment.tokenizer_path,
        ) {
            Ok(path) => path,
            Err(error) => return Err(ConfigError::Setting(error)),
        };
        let onnx_runtime_library_path = match ExistingFilePath::from_environment(
            ORT_LIBRARY_PATH,
            &environment.ort_library_path,
        ) {
            Ok(path) => path,
            Err(error) => return Err(ConfigError::Setting(error)),
        };
        let output_name = match OnnxOutputName::from_environment(
            ONNX_OUTPUT_NAME,
            &environment.onnx_output_name,
            "text_embeds",
        ) {
            Ok(name) => name,
            Err(error) => return Err(ConfigError::Setting(error)),
        };
        let maximum_batch_size = match PositiveCount::from_environment(
            MAX_TEXT_BATCH_SIZE,
            &environment.max_text_batch_size,
            32,
        ) {
            Ok(count) => count,
            Err(error) => return Err(ConfigError::Setting(error)),
        };
        let session_count = match PositiveCount::from_environment(
            ORT_SESSION_COUNT,
            &environment.ort_session_count,
            1,
        ) {
            Ok(count) => count,
            Err(error) => return Err(ConfigError::Setting(error)),
        };
        let intra_operation_threads = match PositiveCount::from_environment(
            ORT_INTRA_OP_THREADS,
            &environment.ort_intra_op_threads,
            1,
        ) {
            Ok(count) => count,
            Err(error) => return Err(ConfigError::Setting(error)),
        };
        let maximum_pending_requests = match NonNegativeCount::from_environment(
            MAX_PENDING_TEXT_REQUESTS,
            &environment.max_pending_text_requests,
            32,
        ) {
            Ok(count) => count,
            Err(error) => return Err(ConfigError::Setting(error)),
        };
        Ok(
            ServiceConfig {
                port,
                model_path,
                tokenizer_path,
                onnx_runtime_library_path,
                output_name,
                maximum_batch_size,
                session_count,
                intra_operation_threads,
                maximum_pending_requests,
                model_contract,
            },
        )
    }

    pub fn port(&self) -> (value: u16)
        ensures
            value == self@.port,
            value > 0,
    {
        self.port.get()
    }

    pub fn model_path(&self) -> (value: &str)
        ensures
            value@ == self@.model_path,
    {
        self.model_path.as_path()
    }

    pub fn tokenizer_path(&self) -> (value: &str)
        ensures
            value@ == self@.tokenizer_path,
    {
        self.tokenizer_path.as_path()
    }

    pub fn onnx_runtime_library_path(&self) -> (value: &str)
        ensures
            value@ == self@.onnx_runtime_library_path,
    {
        self.onnx_runtime_library_path.as_path()
    }

    pub fn output_name(&self) -> (value: &str)
        ensures
            value@ == self@.output_name,
    {
        self.output_name.as_str()
    }

    pub fn maximum_batch_size(&self) -> (value: usize)
        ensures
            value == self@.maximum_batch_size,
            value > 0,
    {
        self.maximum_batch_size.get()
    }

    pub fn session_count(&self) -> (value: usize)
        ensures
            value == self@.session_count,
            value > 0,
    {
        self.session_count.get()
    }

    pub fn intra_operation_threads(&self) -> (value: usize)
        ensures
            value == self@.intra_operation_threads,
            value > 0,
    {
        self.intra_operation_threads.get()
    }

    pub fn maximum_pending_requests(&self) -> (value: usize)
        ensures
            value == self@.maximum_pending_requests,
    {
        self.maximum_pending_requests.get()
    }

    pub fn model_id(&self) -> (value: &str)
        ensures
            value@ == self@.model_contract.model_id,
    {
        self.model_contract.model_id()
    }

    pub fn model_revision(&self) -> (value: &str)
        ensures
            value@ == self@.model_contract.model_revision,
    {
        self.model_contract.model_revision()
    }

    pub fn embedding_dimension(&self) -> (value: usize)
        ensures
            value == self@.model_contract.embedding_dimension,
            value > 0,
    {
        self.model_contract.embedding_dimension()
    }

    pub fn text_max_token_length(&self) -> (value: usize)
        ensures
            value == self@.model_contract.text_max_token_length,
            value > 0,
    {
        self.model_contract.text_max_token_length()
    }
}

/// A configuration is complete: every artifact path was named and is a file,
/// every count that must be positive is, the port can be listened on, the
/// output has a name, and the model is pinned to a full commit SHA.
pub proof fn configurations_are_complete(environment: EnvironmentView)
    requires
        configured(environment) is Ok,
    ensures
        ({
            let config = configured(environment)->Ok_0;
            let contract = config.model_contract;
            &&& nonempty(environment.model_manifest_path.value) is Some
            &&& environment.model_manifest_path.is_file
            &&& nonempty(environment.onnx_model_path.value) == Some(config.model_path)
            &&& environment.onnx_model_path.is_file
            &&& nonempty(environment.tokenizer_path.value) == Some(config.tokenizer_path)
            &&& environment.tokenizer_path.is_file
            &&& nonempty(environment.ort_library_path.value) == Some(
                config.onnx_runtime_library_path,
            )
            &&& environment.ort_library_path.is_file
            &&& config.port > 0
            &&& config.output_name.len() > 0
            &&& config.maximum_batch_size > 0
            &&& config.session_count > 0
            &&& config.intra_operation_threads > 0
            &&& contract.embedding_dimension > 0
            &&& contract.text_max_token_length > 0
            &&& contract.model_id.len() > 0
            &&& is_commit_sha(contract.model_revision)
        }),
{
}

/// A variable that is blank counts as one that is not set.
pub proof fn blank_variables_are_unset(text: Seq<char>)
    requires
        trimmed(text).len() == 0,
    ensures
        nonempty(Some(text)) == nonempty(None::<Seq<char>>),
{
}

/// Only what a variable says matters, not the white space around it.
pub proof fn surrounding_space_does_not_matter(text: Seq<char>)
    ensures
        nonempty(Some(trimmed(text))) == nonempty(Some(text)),
{
    trimming_is_idempotent(text);
}

/// An environment that names the artifacts and says nothing else gives the
/// default settings.
pub proof fn unset_variables_give_defaults(environment: EnvironmentView)
    requires
        file_setting(MODEL_MANIFEST_PATH@, environment.model_manifest_path) is Ok,
        loaded_contract(
            file_setting(MODEL_MANIFEST_PATH@, environment.model_manifest_path)->Ok_0,
            environment.manifest,
        ) is Ok,
        file_setting(ONNX_MODEL_PATH@, environment.onnx_model_path) is Ok,
        file_setting(TOKENIZER_PATH@, environment.tokenizer_path) is Ok,
        file_setting(ORT_LIBRARY_PATH@, environment.ort_library_path) is Ok,
        nonempty(environment.port) is None,
        nonempty(environment.onnx_output_name) is None,
        nonempty(environment.max_text_batch_size) is None,
        nonempty(environment.ort_session_count) is None,
        nonempty(environment.ort_intra_op_threads) is None,
        nonempty(environment.max_pending_text_requests) is None,
    ensures
        configured(environment) matches Ok(config) && {
            &&& config.port == 8000
            &&& config.output_name == "text_embeds"@
            &&& config.maximum_batch_size == 32
            &&& config.session_count == 1
            &&& config.intra_operation_threads == 1
            &&& config.maximum_pending_requests == 32
        },
{
    decimal_reads_back(8000);
    decimal_reads_back(32);
    decimal_reads_back(1);
    reveal_strlit("text_embeds");
}

/// What a variable says, if it says anything: its text without the white space
/// around it.
pub open spec fn said(value: Option<String>) -> Option<Seq<char>> {
    if value is Some && trimmed(value->0@).len() > 0 {
        Some(trimmed(value->0@))
    } else {
        None
    }
}

/// That a setting is the number that its variable says, or the default of one
/// that says nothing.
pub open spec fn follows(setting: nat, value: Option<String>, default_value: nat) -> bool {
    match said(value) {
        Some(text) => unsigned_decimal(text) == Some(setting),
        None => setting == default_value,
    }
}

/// That a variable says nothing, or a number within these bounds.
pub open spec fn says_number(value: Option<String>, least: nat, most: nat) -> bool {
    match said(value) {
        Some(text) => unsigned_decimal(text) is Some && least <= unsigned_decimal(text)->0 <= most,
        None => true,
    }
}

/// That a variable names a file.
pub open spec fn names_file(variable: FileVariable) -> bool {
    said(variable.value) is Some && variable.is_file
}

/// That a text is a full commit SHA.
pub open spec fn pins_commit(text: Seq<char>) -> bool {
    text.len() == 40 && forall|i: int|
        0 <= i < 40 ==> ('0' <= #[trigger] text[i] <= '9' || 'a' <= text[i] <= 'f' || 'A' <= text[i]
            <= 'F')
}

/// Every variable that is set decides its setting and no other, every one that is
/// not leaves the default, and the manifest decides what model is served.
pub proof fn settings_are_what_the_variables_say(environment: Environment, config: ServiceConfig)
    requires
        call_ensures(ServiceConfig::from_environment, (environment,), Ok(config)),
    ensures
        follows(config@.port as nat, environment.port, 8000),
        follows(config@.maximum_batch_size as nat, environment.max_text_batch_size, 32),
        follows(config@.session_count as nat, environment.ort_session_count, 1),
        follows(config@.intra_operation_threads as nat, environment.ort_intra_op_threads, 1),
        follows(config@.maximum_pending_requests as nat, environment.max_pending_text_requests, 32),
        config@.port > 0,
        config@.maximum_batch_size > 0,
        config@.session_count > 0,
        config@.intra_operation_threads > 0,
        config@.output_name == match said(environment.onnx_output_name) {
            Some(name) => name,
            None => "text_embeds"@,
        },
        said(environment.onnx_model_path.value) == Some(config@.model_path),
        said(environment.tokenizer_path.value) == Some(config@.tokenizer_path),
        said(environment.ort_library_path.value) == Some(config@.onnx_runtime_library_path),
        names_file(environment.model_manifest_path),
        names_file(environment.onnx_model_path),
        names_file(environment.tokenizer_path),
        names_file(environment.ort_library_path),
        environment.manifest matches ManifestReading::Document(document) && {
            let contract = config@.model_contract;
            &&& contract.model_id == trimmed(document.repository@)
            &&& contract.model_id.len() > 0
            &&& contract.model_revision == trimmed(document.revision@)
            &&& pins_commit(contract.model_revision)
            &&& contract.embedding_dimension == document.embedding_dimension
            &&& contract.embedding_dimension > 0
            &&& contract.text_max_token_length == document.text_max_token_length
            &&& contract.text_max_token_length > 0
        },
{
    decimal_reads_back(8000);
    decimal_reads_back(32);
    decimal_reads_back(1);
    lemma_said(environment);
    if let ManifestReading::Document(document) = environment.manifest {
        lemma_commit(trimmed(document.revision@));
    }
}

/// The complaint about a variable that should name a file.
pub open spec fn complains_of_file(
    error: ConfigError,
    variable_name: Seq<char>,
    variable: FileVariable,
) -> bool {
    error matches ConfigError::Setting(setting_error) && match said(variable.value) {
        None => setting_error matches SettingError::Required { variable_name: named } && named@
            == variable_name,
        Some(text) => setting_error matches SettingError::NotAFile { variable_name: named, path }
            && named@ == variable_name && path@ == text,
    }
}

/// The complaint about a variable that should say a number above zero: that it
/// says zero, or that it says none.
pub open spec fn complains_of_count(
    error: ConfigError,
    variable_name: Seq<char>,
    value: Option<String>,
) -> bool {
    error matches ConfigError::Setting(setting_error) && if unsigned_decimal(said(value)->0)
        == Some(0nat) {
        setting_error matches SettingError::NotGreaterThanZero { variable_name: named } && named@
            == variable_name
    } else {
        setting_error matches SettingError::NotAPositiveInteger { variable_name: named } && named@
            == variable_name
    }
}

/// An environment is refused only for what is wrong with it, and the first thing
/// that is, in a fixed order, is the one complained of, by its name.
pub proof fn refused_environments_are_told_why(environment: Environment, error: ConfigError)
    requires
        call_ensures(ServiceConfig::from_environment, (environment,), Err(error)),
    ensures
        if !names_file(environment.model_manifest_path) {
            complains_of_file(
                error,
                "SIGLIP_MODEL_MANIFEST_PATH"@,
                environment.model_manifest_path,
            )
        } else if environment.manifest is Unreadable {
            error matches ConfigError::UnreadableManifest { manifest_path } && Some(manifest_path@)
                == said(environment.model_manifest_path.value)
        } else if environment.manifest is Malformed {
            error matches ConfigError::InvalidManifest { manifest_path, cause } && {
                &&& Some(manifest_path@) == said(environment.model_manifest_path.value)
                &&& cause is MalformedManifest
            }
        } else if !is_whole(environment.manifest->Document_0) {
            error matches ConfigError::InvalidManifest { manifest_path, cause } && {
                &&& Some(manifest_path@) == said(environment.model_manifest_path.value)
                &&& complains_of_manifest(cause, environment.manifest->Document_0)
            }
        } else if !says_number(environment.port, 1, u16::MAX as nat) {
            error matches ConfigError::Setting(setting_error) && if unsigned_decimal(
                said(environment.port)->0,
            ) == Some(0nat) {
                setting_error matches SettingError::NotGreaterThanZero { variable_name }
                    && variable_name@ == "SIGLIP_PORT"@
            } else {
                setting_error matches SettingError::NotATcpPort { variable_name } && variable_name@
                    == "SIGLIP_PORT"@
            }
        } else if !names_file(environment.onnx_model_path) {
            complains_of_file(error, "SIGLIP_ONNX_MODEL_PATH"@, environment.onnx_model_path)
        } else if !names_file(environment.tokenizer_path) {
            complains_of_file(error, "SIGLIP_TOKENIZER_PATH"@, environment.tokenizer_path)
        } else if !names_file(environment.ort_library_path) {
            complains_of_file(error, "SIGLIP_ORT_LIBRARY_PATH"@, environment.ort_library_path)
        } else if !says_number(environment.max_text_batch_size, 1, usize::MAX as nat) {
            complains_of_count(
                error,
                "SIGLIP_MAX_TEXT_BATCH_SIZE"@,
                environment.max_text_batch_size,
            )
        } else if !says_number(environment.ort_session_count, 1, usize::MAX as nat) {
            complains_of_count(
                error,
                "SIGLIP_ORT_SESSION_COUNT"@,
                environment.ort_session_count,
            )
        } else if !says_number(environment.ort_intra_op_threads, 1, usize::MAX as nat) {
            complains_of_count(
                error,
                "SIGLIP_ORT_INTRA_OP_THREADS"@,
                environment.ort_intra_op_threads,
            )
        } else {
            &&& !says_number(environment.max_pending_text_requests, 0, usize::MAX as nat)
            &&& error matches ConfigError::Setting(SettingError::NotANonNegativeInteger {
                variable_name,
            }) && variable_name@ == "SIGLIP_MAX_PENDING_TEXT_REQUESTS"@
        },
{
    decimal_reads_back(8000);
    decimal_reads_back(32);
    decimal_reads_back(1);
    reveal_strlit("text_embeds");
    lemma_said(environment);
    if let ManifestReading::Document(document) = environment.manifest {
        lemma_commit(trimmed(document.revision@));
    }
}

/// That a manifest pins a model: it names a repository and a commit, and no
/// number is zero.
pub open spec fn is_whole(document: ModelManifestDocument) -> bool {
    &&& trimmed(document.repository@).len() > 0
    &&& pins_commit(trimmed(document.revision@))
    &&& document.embedding_dimension > 0
    &&& document.text_max_token_length > 0
}

/// The complaint about a manifest that does not pin a model.
pub open spec fn complains_of_manifest(cause: SettingError, document: ModelManifestDocument) -> bool {
    if trimmed(document.repository@).len() == 0 {
        cause is EmptyRepository
    } else if !pins_commit(trimmed(document.revision@)) {
        cause is RevisionNotACommitSha
    } else {
        cause matches SettingError::NotGreaterThanZero { variable_name } && variable_name@
            == if document.embedding_dimension == 0 {
            "model manifest embedding_dimension"@
        } else {
            "model manifest text_max_token_length"@
        }
    }
}

/// A manifest document states a contract exactly where it pins a model, and the
/// contract holds what the document says.
pub proof fn whole_manifests_state_their_contract(
    document: ModelManifestDocument,
    result: Result<ModelContract, SettingError>,
)
    requires
        call_ensures(ModelContract::from_document, (document,), result),
    ensures
        match result {
            Ok(contract) => {
                &&& is_whole(document)
                &&& contract@.model_id == trimmed(document.repository@)
                &&& contract@.model_revision == trimmed(document.revision@)
                &&& contract@.embedding_dimension == document.embedding_dimension
                &&& contract@.text_max_token_length == document.text_max_token_length
            },
            Err(cause) => !is_whole(document) && complains_of_manifest(cause, document),
        },
{
    lemma_commit(trimmed(document.revision@));
}

/// A port is taken exactly where the text is a decimal number from 1 up to the
/// greatest port, and it is that number.
pub proof fn ports_are_the_numbers_they_say(
    variable_name: &str,
    raw_value: &str,
    result: Result<ServicePort, SettingError>,
)
    requires
        call_ensures(ServicePort::parse, (variable_name, raw_value), result),
    ensures
        match result {
            Ok(port) => port@ > 0 && unsigned_decimal(raw_value@) == Some(port@ as nat),
            Err(SettingError::NotGreaterThanZero { variable_name: named }) => {
                &&& unsigned_decimal(raw_value@) == Some(0nat)
                &&& named@ == variable_name@
            },
            Err(SettingError::NotATcpPort { variable_name: named }) => {
                &&& unsigned_decimal(raw_value@) matches Some(number) ==> number > u16::MAX
                &&& named@ == variable_name@
            },
            Err(_) => false,
        },
{
}

/// A positive count is taken exactly where the text is a decimal number above zero
/// that fits, and it is that number.
pub proof fn positive_counts_are_the_numbers_they_say(
    variable_name: &str,
    raw_value: &str,
    result: Result<PositiveCount, SettingError>,
)
    requires
        call_ensures(PositiveCount::parse, (variable_name, raw_value), result),
    ensures
        match result {
            Ok(count) => count@ > 0 && unsigned_decimal(raw_value@) == Some(count@ as nat),
            Err(SettingError::NotGreaterThanZero { variable_name: named }) => {
                &&& unsigned_decimal(raw_value@) == Some(0nat)
                &&& named@ == variable_name@
            },
            Err(SettingError::NotAPositiveInteger { variable_name: named }) => {
                &&& unsigned_decimal(raw_value@) matches Some(number) ==> number > usize::MAX
                &&& named@ == variable_name@
            },
            Err(_) => false,
        },
{
}

/// A count is taken exactly where the text is a decimal number that fits, and it
/// is that number.
pub proof fn counts_are_the_numbers_they_say(
    variable_name: &str,
    raw_value: &str,
    result: Result<NonNegativeCount, SettingError>,
)
    requires
        call_ensures(NonNegativeCount::parse, (variable_name, raw_value), result),
    ensures
        match result {
            Ok(count) => unsigned_decimal(raw_value@) == Some(count@ as nat),
            Err(SettingError::NotANonNegativeInteger { variable_name: named }) => {
                &&& unsigned_decimal(raw_value@) matches Some(number) ==> number > usize::MAX
                &&& named@ == variable_name@
            },
            Err(_) => false,
        },
{
}

/// A configuration hands out the settings that it holds.
pub proof fn configurations_hand_out_their_settings(config: &ServiceConfig)
    ensures
        forall|value: u16| #[trigger]
            call_ensures(ServiceConfig::port, (config,), value) ==> value == config@.port,
        forall|value: &str| #[trigger]
            call_ensures(ServiceConfig::model_path, (config,), value) ==> value@
                == config@.model_path,
        forall|value: &str| #[trigger]
            call_ensures(ServiceConfig::tokenizer_path, (config,), value) ==> value@
                == config@.tokenizer_path,
        forall|value: &str| #[trigger]
            call_ensures(ServiceConfig::onnx_runtime_library_path, (config,), value) ==> value@
                == config@.onnx_runtime_library_path,
        forall|value: &str| #[trigger]
            call_ensures(ServiceConfig::output_name, (config,), value) ==> value@
                == config@.output_name,
        forall|value: usize| #[trigger]
            call_ensures(ServiceConfig::maximum_batch_size, (config,), value) ==> value
                == config@.maximum_batch_size,
        forall|value: usize| #[trigger]
            call_ensures(ServiceConfig::session_count, (config,), value) ==> value
                == config@.session_count,
        forall|value: usize| #[trigger]
            call_ensures(ServiceConfig::intra_operation_threads, (config,), value) ==> value
                == config@.intra_operation_threads,
        forall|value: usize| #[trigger]
            call_ensures(ServiceConfig::maximum_pending_requests, (config,), value) ==> value
                == config@.maximum_pending_requests,
        forall|value: &str| #[trigger]
            call_ensures(ServiceConfig::model_id, (config,), value) ==> value@
                == config@.model_contract.model_id,
        forall|value: &str| #[trigger]
            call_ensures(ServiceConfig::model_revision, (config,), value) ==> value@
                == config@.model_contract.model_revision,
        forall|value: usize| #[trigger]
            call_ensures(ServiceConfig::embedding_dimension, (config,), value) ==> value
                == config@.model_contract.embedding_dimension,
        forall|value: usize| #[trigger]
            call_ensures(ServiceConfig::text_max_token_length, (config,), value) ==> value
                == config@.model_contract.text_max_token_length,
{
}

/// The words for an invalid setting name the variable and what it should be.
pub proof fn setting_errors_name_what_is_wrong(error: &SettingError, text: String)
    requires
        call_ensures(SettingError::message, (error,), text),
    ensures
        match *error {
            SettingError::Required { variable_name } => text@ == variable_name@ + " is required"@,
            SettingError::NotAFile { variable_name, path } => text@ == variable_name@
                + " must name a readable file, got "@ + path@,
            SettingError::NotATcpPort { variable_name } => text@ == variable_name@
                + " must be a TCP port"@,
            SettingError::NotAPositiveInteger { variable_name } => text@ == variable_name@
                + " must be a positive integer"@,
            SettingError::NotANonNegativeInteger { variable_name } => text@ == variable_name@
                + " must be a non-negative integer"@,
            SettingError::NotGreaterThanZero { variable_name } => text@ == variable_name@
                + " must be greater than zero"@,
            SettingError::EmptyOutputName { variable_name } => text@ == variable_name@
                + " must be a non-empty ONNX output name"@,
            SettingError::MalformedManifest => text@ == "parsing model manifest JSON"@,
            SettingError::EmptyRepository => text@
                == "model manifest repository must be non-empty"@,
            SettingError::RevisionNotACommitSha => text@
                == "model manifest revision must be a 40-character hexadecimal commit SHA"@,
        },
{
}

/// The words for an environment that is refused name the manifest, or are those of
/// the setting.
pub proof fn configuration_errors_name_what_is_wrong(error: &ConfigError, text: String)
    requires
        call_ensures(ConfigError::message, (error,), text),
    ensures
        match *error {
            ConfigError::Setting(setting_error) => forall|words: String| #[trigger]
                call_ensures(SettingError::message, (&setting_error,), words) ==> text@ == words@,
            ConfigError::UnreadableManifest { manifest_path } => text@
                == "reading model manifest "@ + manifest_path@,
            ConfigError::InvalidManifest { manifest_path, .. } => text@
                == "validating model manifest "@ + manifest_path@,
        },
{
}

proof fn lemma_said(environment: Environment)
    ensures
        nonempty(environment@.model_manifest_path.value) == said(
            environment.model_manifest_path.value,
        ),
        nonempty(environment@.onnx_model_path.value) == said(environment.onnx_model_path.value),
        nonempty(environment@.tokenizer_path.value) == said(environment.tokenizer_path.value),
        nonempty(environment@.ort_library_path.value) == said(environment.ort_library_path.value),
        nonempty(environment@.port) == said(environment.port),
        nonempty(environment@.onnx_output_name) == said(environment.onnx_output_name),
        nonempty(environment@.max_text_batch_size) == said(environment.max_text_batch_size),
        nonempty(environment@.ort_session_count) == said(environment.ort_session_count),
        nonempty(environment@.ort_intra_op_threads) == said(environment.ort_intra_op_threads),
        nonempty(environment@.max_pending_text_requests) == said(
            environment.max_pending_text_requests,
        ),
{
}

proof fn lemma_commit(text: Seq<char>)
    ensures
        is_commit_sha(text) == pins_commit(text),
{
    if is_commit_sha(text) {
        assert forall|i: int| 0 <= i < 40 implies ('0' <= #[trigger] text[i] <= '9' || 'a'
            <= text[i] <= 'f' || 'A' <= text[i] <= 'F') by {
            assert(is_hex_digit(text[i]));
        }
    }
}

/// Whatever the default, a number that is taken from a variable is the one that
/// the variable says, or the default of one that says nothing.
pub proof fn numbers_follow_their_variable(
    variable_name: &str,
    value: &Option<String>,
    default_port: u16,
    default_count: usize,
)
    ensures
        forall|port: ServicePort| #[trigger]
            call_ensures(
                ServicePort::from_environment,
                (variable_name, value, default_port),
                Ok(port),
            ) ==> port@ > 0 && follows(port@ as nat, *value, default_port as nat),
        forall|count: PositiveCount| #[trigger]
            call_ensures(
                PositiveCount::from_environment,
                (variable_name, value, default_count),
                Ok(count),
            ) ==> count@ > 0 && follows(count@ as nat, *value, default_count as nat),
        forall|count: NonNegativeCount| #[trigger]
            call_ensures(
                NonNegativeCount::from_environment,
                (variable_name, value, default_count),
                Ok(count),
            ) ==> follows(count@ as nat, *value, default_count as nat),
        forall|error: SettingError| #[trigger]
            call_ensures(
                ServicePort::from_environment,
                (variable_name, value, default_port),
                Err(error),
            ) ==> !says_number(*value, 1, u16::MAX as nat) || said(*value) is None && default_port
                == 0,
        forall|error: SettingError| #[trigger]
            call_ensures(
                PositiveCount::from_environment,
                (variable_name, value, default_count),
                Err(error),
            ) ==> !says_number(*value, 1, usize::MAX as nat) || said(*value) is None
                && default_count == 0,
        forall|error: SettingError| #[trigger]
            call_ensures(
                NonNegativeCount::from_environment,
                (variable_name, value, default_count),
                Err(error),
            ) ==> !says_number(*value, 0, usize::MAX as nat),
{
    decimal_reads_back(default_port as nat);
    decimal_reads_back(default_count as nat);
}

/// A path is taken exactly where its variable names a file, and it is what the
/// variable says.
pub proof fn paths_follow_their_variable(
    variable_name: &str,
    variable: &FileVariable,
    result: Result<ExistingFilePath, SettingError>,
)
    requires
        call_ensures(ExistingFilePath::from_environment, (variable_name, variable), result),
    ensures
        match result {
            Ok(path) => variable.is_file && said(variable.value) == Some(path@),
            Err(SettingError::Required { variable_name: named }) => {
                &&& said(variable.value) is None
                &&& named@ == variable_name@
            },
            Err(SettingError::NotAFile { variable_name: named, path }) => {
                &&& !variable.is_file
                &&& said(variable.value) == Some(path@)
                &&& named@ == variable_name@
            },
            Err(_) => false,
        },
{
}

/// An output name is what its variable says, or the default of one that says
/// nothing; only a default without a character is refused.
pub proof fn output_names_follow_their_variable(
    variable_name: &str,
    value: &Option<String>,
    default_value: &str,
    result: Result<OnnxOutputName, SettingError>,
)
    requires
        call_ensures(
            OnnxOutputName::from_environment,
            (variable_name, value, default_value),
            result,
        ),
    ensures
        match result {
            Ok(name) => name@.len() > 0 && name@ == match said(*value) {
                Some(text) => text,
                None => default_value@,
            },
            Err(SettingError::EmptyOutputName { variable_name: named }) => {
                &&& said(*value) is None
                &&& default_value@.len() == 0
                &&& named@ == variable_name@
            },
            Err(_) => false,
        },
{
}

/// A repository is named by any text that is not blank, and a revision pinned by
/// any full commit SHA, both without the white space around them.
pub proof fn models_are_named_and_pinned(raw_value: String)
    ensures
        forall|identifier: ModelIdentifier| #[trigger]
            call_ensures(ModelIdentifier::parse, (raw_value,), Ok(identifier)) ==> identifier@
                == trimmed(raw_value@) && identifier@.len() > 0,
        forall|error: SettingError| #[trigger]
            call_ensures(ModelIdentifier::parse, (raw_value,), Err(error)) ==> trimmed(
                raw_value@,
            ).len() == 0,
        forall|revision: ModelRevision| #[trigger]
            call_ensures(ModelRevision::parse, (raw_value,), Ok(revision)) ==> revision@ == trimmed(
                raw_value@,
            ) && pins_commit(revision@),
        forall|error: SettingError| #[trigger]
            call_ensures(ModelRevision::parse, (raw_value,), Err(error)) ==> !pins_commit(
                trimmed(raw_value@),
            ),
{
    lemma_commit(trimmed(raw_value@));
}

/// A manifest file states the contract of its document; one that cannot be read,
/// or is no document, or pins no model, is complained of by its path.
pub proof fn manifests_state_the_contract_of_their_document(
    manifest_path: &str,
    reading: ManifestReading,
    result: Result<ModelContract, ConfigError>,
)
    requires
        call_ensures(ModelContract::load, (manifest_path, reading), result),
    ensures
        match (reading, result) {
            (
                ManifestReading::Unreadable,
                Err(ConfigError::UnreadableManifest { manifest_path: named }),
            ) => named@ == manifest_path@,
            (
                ManifestReading::Malformed,
                Err(ConfigError::InvalidManifest { manifest_path: named, cause }),
            ) => named@ == manifest_path@ && cause is MalformedManifest,
            (ManifestReading::Document(document), Ok(contract)) => {
                &&& is_whole(document)
                &&& contract@.model_id == trimmed(document.repository@)
                &&& contract@.model_revision == trimmed(document.revision@)
                &&& contract@.embedding_dimension == document.embedding_dimension
                &&& contract@.text_max_token_length == document.text_max_token_length
            },
            (
                ManifestReading::Document(document),
                Err(ConfigError::InvalidManifest { manifest_path: named, cause }),
            ) => {
                &&& named@ == manifest_path@
                &&& !is_whole(document)
                &&& complains_of_manifest(cause, document)
            },
            _ => false,
        },
{
    if let ManifestReading::Document(document) = reading {
        lemma_commit(trimmed(document.revision@));
    }
}

/// A variable says its text without the white space around it, or nothing.
pub proof fn variables_say_their_trimmed_text(value: &Option<String>, text: Option<String>)
    requires
        call_ensures(read_nonempty, (value,), text),
    ensures
        match text {
            Some(found) => said(*value) == Some(found@),
            None => said(*value) is None,
        },
{
    assert(set_text(text) == said(*value));
}

/// An output name is any text with a character.
pub proof fn output_names_are_not_empty(
    variable_name: &str,
    value: String,
    result: Result<OnnxOutputName, SettingError>,
)
    requires
        call_ensures(OnnxOutputName::parse, (variable_name, value), result),
    ensures
        result is Ok <==> value@.len() > 0,
        result matches Ok(name) ==> name@ == value@,
        result matches Err(error) ==> error matches SettingError::EmptyOutputName {
            variable_name: named,
        } && named@ == variable_name@,
{
}

/// A contract hands out what it holds.
pub proof fn contracts_hand_out_what_they_hold(contract: &ModelContract)
    ensures
        forall|value: &str| #[trigger]
            call_ensures(ModelContract::model_id, (contract,), value) ==> value@
                == contract@.model_id,
        forall|value: &str| #[trigger]
            call_ensures(ModelContract::model_revision, (contract,), value) ==> value@
                == contract@.model_revision,
        forall|value: usize| #[trigger]
            call_ensures(ModelContract::embedding_dimension, (contract,), value) ==> value
                == contract@.embedding_dimension,
        forall|value: usize| #[trigger]
            call_ensures(ModelContract::text_max_token_length, (contract,), value) ==> value
                == contract@.text_max_token_length,
{
}

/// The variables by their names.
pub proof fn variables_are_called_by_their_names()
    ensures
        MODEL_MANIFEST_PATH@ == "SIGLIP_MODEL_MANIFEST_PATH"@,
        PORT@ == "SIGLIP_PORT"@,
        ONNX_MODEL_PATH@ == "SIGLIP_ONNX_MODEL_PATH"@,
        TOKENIZER_PATH@ == "SIGLIP_TOKENIZER_PATH"@,
        ORT_LIBRARY_PATH@ == "SIGLIP_ORT_LIBRARY_PATH"@,
        ONNX_OUTPUT_NAME@ == "SIGLIP_ONNX_OUTPUT_NAME"@,
        MAX_TEXT_BATCH_SIZE@ == "SIGLIP_MAX_TEXT_BATCH_SIZE"@,
        ORT_SESSION_COUNT@ == "SIGLIP_ORT_SESSION_COUNT"@,
        ORT_INTRA_OP_THREADS@ == "SIGLIP_ORT_INTRA_OP_THREADS"@,
        MAX_PENDING_TEXT_REQUESTS@ == "SIGLIP_MAX_PENDING_TEXT_REQUESTS"@,
{
}

} // verus!
