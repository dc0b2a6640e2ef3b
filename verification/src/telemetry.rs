//! Telemetry: what an event of the application becomes for the web view and for
//! the collector, and how the exporters are set up.

use vstd::prelude::*;

use crate::text::same_text;

verus! {

/// How grave an event is.
#[derive(Debug, Clone, Copy, PartialEq, Eq, Structural)]
pub enum Level {
    Trace,
    Debug,
    Info,
    Warn,
    Error,
}

/// The level of a log line in the web view.
#[derive(Debug, Clone, Copy, PartialEq, Eq, Structural)]
pub enum LogLevel {
    Trace,
    Debug,
    Info,
    Warn,
    Error,
}

/// The severity of a log record for the collector.
#[derive(Debug, Clone, Copy, PartialEq, Eq, Structural)]
pub enum Severity {
    Trace,
    Debug,
    Info,
    Warn,
    Error,
}

impl Severity {
    /// The name of the severity.
    pub open spec fn text(self) -> Seq<char> {
        match self {
            Severity::Trace => "TRACE"@,
            Severity::Debug => "DEBUG"@,
            Severity::Info => "INFO"@,
            Severity::Warn => "WARN"@,
            Severity::Error => "ERROR"@,
        }
    }
}

/// `opentelemetry::logs::Severity::name`: the upper case name of the severity.
#[verifier::external_body]
fn severity_name(severity: Severity) -> (r: String)
    ensures
        r@ == severity.text(),
{
    let own: opentelemetry::logs::Severity = match severity {
        Severity::Trace => opentelemetry::logs::Severity::Trace,
        Severity::Debug => opentelemetry::logs::Severity::Debug,
        Severity::Info => opentelemetry::logs::Severity::Info,
        Severity::Warn => opentelemetry::logs::Severity::Warn,
        Severity::Error => opentelemetry::logs::Severity::Error,
    };
    own.name().to_string()
}

/// The severity that goes with a level. Every level has one.
pub open spec fn severity_of(level: Level) -> Severity {
    match level {
        Level::Trace => Severity::Trace,
        Level::Debug => Severity::Debug,
        Level::Info => Severity::Info,
        Level::Warn => Severity::Warn,
        Level::Error => Severity::Error,
    }
}

/// The severity that goes with a level.
pub fn level_to_severity(level: &Level) -> (r: Option<Severity>)
    ensures
        r == Some(severity_of(*level)),
{
    match *level {
        Level::Trace => Some(Severity::Trace),
        Level::Debug => Some(Severity::Debug),
        Level::Info => Some(Severity::Info),
        Level::Warn => Some(Severity::Warn),
        Level::Error => Some(Severity::Error),
    }
}

/// The level of the web view that goes with a level.
pub open spec fn webview_level_of(level: Level) -> LogLevel {
    match level {
        Level::Trace => LogLevel::Trace,
        Level::Debug => LogLevel::Debug,
        Level::Info => LogLevel::Info,
        Level::Warn => LogLevel::Warn,
        Level::Error => LogLevel::Error,
    }
}

/// The level of the web view that goes with a level.
pub fn webview_level(level: &Level) -> (r: LogLevel)
    ensures
        r == webview_level_of(*level),
{
    match *level {
        Level::Trace => LogLevel::Trace,
        Level::Debug => LogLevel::Debug,
        Level::Info => LogLevel::Info,
        Level::Warn => LogLevel::Warn,
        Level::Error => LogLevel::Error,
    }
}

/// Finds the message among the fields of an event.
#[derive(Debug)]
pub struct EventVisitor {
    pub message: Option<String>,
}

/// A field of an event as a visitor gets it: with the text that it is debugged
/// as, or with the string that it is.
pub enum FieldView {
    Debugged { name: Seq<char>, text: Seq<char> },
    Plain { name: Seq<char>, text: Seq<char> },
}

/// The message that is known once one field more was seen. The first debugged
/// message counts where no message is known; a message that is a string always
/// counts.
pub open spec fn message_after(message: Option<Seq<char>>, field: FieldView) -> Option<Seq<char>> {
    match field {
        FieldView::Debugged { name, text } => if name == "message"@ && message is None {
            Some(text)
        } else {
            message
        },
        FieldView::Plain { name, text } => if name == "message"@ {
            Some(text)
        } else {
            message
        },
    }
}

/// The message among fields that are seen in order.
pub open spec fn message_among(fields: Seq<FieldView>) -> Option<Seq<char>>
    decreases fields.len(),
{
    if fields.len() == 0 {
        None
    } else {
        message_after(message_among(fields.drop_last()), fields.last())
    }
}

impl Default for EventVisitor {
    fn default() -> (r: Self)
        ensures
            r.message is None,
    {
        EventVisitor { message: None }
    }
}

impl EventVisitor {
    /// Takes a field with the text that it is debugged as.
    pub fn record_debug(&mut self, field: &str, text: String)
        ensures
            final(self).message.deep_view() == message_after(
                old(self).message.deep_view(),
                FieldView::Debugged { name: field@, text: text@ },
            ),
    {
        if same_text(field, "message") && self.message.is_none() {
            self.message = Some(text);
        }
    }

    /// Takes a field that is a string.
    pub fn record_str(&mut self, field: &str, value: &str)
        ensures
            final(self).message.deep_view() == message_after(
                old(self).message.deep_view(),
                FieldView::Plain { name: field@, text: value@ },
            ),
    {
        if same_text(field, "message") {
            self.message = Some(value.to_string());
        }
    }
}

/// The name of a field.
pub open spec fn field_name(field: FieldView) -> Seq<char> {
    match field {
        FieldView::Debugged { name, .. } => name,
        FieldView::Plain { name, .. } => name,
    }
}

/// An event has a message exactly where one of its fields is named so, however
/// the fields come.
pub proof fn lemma_message_comes_from_its_field(fields: Seq<FieldView>)
    ensures
        message_among(fields) is Some <==> exists|i: int|
            0 <= i < fields.len() && field_name(#[trigger] fields[i]) == "message"@,
    decreases fields.len(),
{
    if fields.len() > 0 {
        let front = fields.drop_last();
        lemma_message_comes_from_its_field(front);
        assert forall|i: int| 0 <= i < front.len() implies #[trigger] front[i] == fields[i] by {}
        if message_among(front) is Some {
            let i = choose|i: int| 0 <= i < front.len() && field_name(#[trigger] front[i]) == "message"@;
            assert(fields[i] == front[i]);
        }
        if message_among(fields) is Some && message_among(front) is None {
            assert(field_name(fields[fields.len() - 1]) == "message"@);
        }
        if exists|i: int| 0 <= i < fields.len() && field_name(#[trigger] fields[i]) == "message"@ {
            let i = choose|i: int| 0 <= i < fields.len() && field_name(#[trigger] fields[i]) == "message"@;
            if i < front.len() {
                assert(front[i] == fields[i]);
            }
        }
    }
}

/// A message that is a string is kept against every debugged one, and only a
/// later string takes its place.
pub proof fn lemma_plain_message_stays(before: Seq<FieldView>, text: Seq<char>, after: Seq<FieldView>)
    requires
        forall|i: int| 0 <= i < after.len() ==> #[trigger] after[i] is Debugged,
    ensures
        message_among(before.push(FieldView::Plain { name: "message"@, text }) + after) == Some(text),
    decreases after.len(),
{
    let start = before.push(FieldView::Plain { name: "message"@, text });
    if after.len() == 0 {
        assert(start + after == start);
        assert(start.drop_last() == before);
    } else {
        let front = after.drop_last();
        assert forall|i: int| 0 <= i < front.len() implies #[trigger] front[i] is Debugged by {
            assert(front[i] == after[i]);
        }
        lemma_plain_message_stays(before, text, front);
        assert((start + after).drop_last() == start + front);
        assert((start + after).last() == after[after.len() - 1]);
    }
}

/// A line of the log in the web view.
#[derive(Debug)]
pub struct WebviewPayload {
    pub message: String,
    pub level: LogLevel,
}

/// The line that an event gives in the web view. An event without a message
/// gives none.
pub fn webview_payload(level: &Level, visitor: EventVisitor) -> (r: Option<WebviewPayload>)
    ensures
        match r {
            Some(payload) => visitor.message == Some(payload.message) && payload.level == webview_level_of(*level),
            None => visitor.message is None,
        },
{
    match visitor.message {
        Some(message) => Some(WebviewPayload { message, level: webview_level(level) }),
        None => None,
    }
}

/// Where an event comes from.
#[derive(Debug)]
pub struct EventMetadata {
    pub level: Level,
    pub target: String,
    pub module: Option<String>,
    pub file: Option<String>,
    pub line: Option<u32>,
}

/// Where an event comes from, by its texts.
pub struct MetadataView {
    pub level: Level,
    pub target: Seq<char>,
    pub module: Option<Seq<char>>,
    pub file: Option<Seq<char>>,
    pub line: Option<u32>,
}

impl View for EventMetadata {
    type V = MetadataView;

    open spec fn view(&self) -> MetadataView {
        MetadataView {
            level: self.level,
            target: self.target@,
            module: self.module.deep_view(),
            file: self.file.deep_view(),
            line: self.line,
        }
    }
}

/// The value of an attribute.
#[derive(Debug)]
pub enum AttributeValue {
    Text(String),
    Integer(i64),
}

/// The value of an attribute, by its contents.
pub enum AttributeView {
    Text(Seq<char>),
    Integer(i64),
}

impl View for AttributeValue {
    type V = AttributeView;

    open spec fn view(&self) -> AttributeView {
        match *self {
            AttributeValue::Text(text) => AttributeView::Text(text@),
            AttributeValue::Integer(n) => AttributeView::Integer(n),
        }
    }
}

/// An attribute of a log record.
#[derive(Debug)]
pub struct Attribute {
    pub key: &'static str,
    pub value: AttributeValue,
}

impl View for Attribute {
    type V = (Seq<char>, AttributeView);

    open spec fn view(&self) -> (Seq<char>, AttributeView) {
        (self.key@, self.value@)
    }
}

/// A record for the collector, but for its time.
#[derive(Debug)]
pub struct LogRecord {
    pub body: String,
    pub severity: Option<Severity>,
    pub severity_text: Option<String>,
    pub attributes: Vec<Attribute>,
}

/// A record for the collector, by its texts.
#[verifier::ext_equal]
pub struct RecordView {
    pub body: Seq<char>,
    pub severity: Option<Severity>,
    pub severity_text: Option<Seq<char>>,
    pub attributes: Seq<(Seq<char>, AttributeView)>,
}

impl View for LogRecord {
    type V = RecordView;

    open spec fn view(&self) -> RecordView {
        RecordView {
            body: self.body@,
            severity: self.severity,
            severity_text: self.severity_text.deep_view(),
            attributes: self.attributes@.map_values(|attribute: Attribute| attribute@),
        }
    }
}

/// The attributes with a text under a key, where there is one.
pub open spec fn with_text(
    attributes: Seq<(Seq<char>, AttributeView)>,
    key: Seq<char>,
    text: Option<Seq<char>>,
) -> Seq<(Seq<char>, AttributeView)> {
    match text {
        Some(t) => attributes.push((key, AttributeView::Text(t))),
        None => attributes,
    }
}

/// The attributes of the record of an event: the module, the file and the line
/// that it comes from, as far as they are known, and its target.
pub open spec fn record_attributes(metadata: MetadataView) -> Seq<(Seq<char>, AttributeView)> {
    let located = with_text(
        with_text(Seq::empty(), "code.namespace"@, metadata.module),
        "code.filepath"@,
        metadata.file,
    );
    let lined = match metadata.line {
        Some(line) => located.push(("code.lineno"@, AttributeView::Integer(line as i64))),
        None => located,
    };
    lined.push(("log.target"@, AttributeView::Text(metadata.target)))
}

/// The record of an event: its message, or its target where it has none, under
/// the severity of its level.
pub open spec fn record_of(metadata: MetadataView, message: Option<Seq<char>>) -> RecordView {
    RecordView {
        body: message.unwrap_or(metadata.target),
        severity: Some(severity_of(metadata.level)),
        severity_text: Some(severity_of(metadata.level).text()),
        attributes: record_attributes(metadata),
    }
}

/// The record of an event.
pub fn log_record(metadata: EventMetadata, visitor: EventVisitor) -> (r: LogRecord)
    ensures
        r@ == record_of(metadata@, visitor.message.deep_view()),
{
    let body: String = match visitor.message {
        Some(message) => message,
        None => metadata.target.clone(),
    };
    let severity: Option<Severity> = level_to_severity(&metadata.level);
    let severity_text: Option<String> = match severity {
        Some(severity) => Some(severity_name(severity)),
        None => None,
    };
    let ghost view = |attribute: Attribute| attribute@;
    let mut attributes: Vec<Attribute> = Vec::new();
    if let Some(module) = metadata.module {
        attributes.push(Attribute { key: "code.namespace", value: AttributeValue::Text(module) });
    }
    if let Some(file) = metadata.file {
        attributes.push(Attribute { key: "code.filepath", value: AttributeValue::Text(file) });
    }
    if let Some(line) = metadata.line {
        attributes.push(Attribute { key: "code.lineno", value: AttributeValue::Integer(line as i64) });
    }
    attributes.push(Attribute { key: "log.target", value: AttributeValue::Text(metadata.target) });
    proof {
        assert(attributes@.map_values(view) == record_attributes(metadata@));
    }
    LogRecord { body, severity, severity_text, attributes }
}

/// How telemetry is set up.
#[derive(Debug)]
pub struct TelemetrySettings {
    /// Where the collector is.
    pub endpoint: String,
    /// How long an export may take, in seconds.
    pub timeout_secs: u64,
    /// What is said of the application with every export.
    pub resource: Vec<(String, String)>,
    /// The name under which records are logged.
    pub logger_name: String,
    /// The folder for log files inside the data folder.
    pub log_folder: String,
    /// The name that log files begin with.
    pub log_file: String,
    /// What is logged where the environment does not say.
    pub default_filter: String,
}

/// How telemetry is set up, given the collector that the environment names and
/// the version of the application.
pub fn telemetry_settings(endpoint: Option<String>, version: &str) -> (r: TelemetrySettings)
    ensures
        r.endpoint@ == endpoint.deep_view().unwrap_or("http://127.0.0.1:4317"@),
        r.timeout_secs == 5,
        r.resource.deep_view() == seq![
            ("service.name"@, "jan-desktop"@),
            ("service.namespace"@, "jan"@),
            ("service.version"@, version@),
        ],
        r.logger_name@ == "jan-desktop"@,
        r.log_folder@ == "logs"@,
        r.log_file@ == "app.log"@,
        r.default_filter@ == "info"@,
{
    let mut resource: Vec<(String, String)> = Vec::new();
    resource.push(("service.name".to_string(), "jan-desktop".to_string()));
    resource.push(("service.namespace".to_string(), "jan".to_string()));
    resource.push(("service.version".to_string(), version.to_string()));
    proof {
        assert(resource.deep_view() == seq![
            ("service.name"@, "jan-desktop"@),
            ("service.namespace"@, "jan"@),
            ("service.version"@, version@),
        ]);
    }
    TelemetrySettings {
        endpoint: match endpoint {
            Some(endpoint) => endpoint,
            None => "http://127.0.0.1:4317".to_string(),
        },
        timeout_secs: 5,
        resource,
        logger_name: "jan-desktop".to_string(),
        log_folder: "logs".to_string(),
        log_file: "app.log".to_string(),
        default_filter: "info".to_string(),
    }
}

/// Why telemetry could not be set up, each with the text of its cause.
#[derive(Debug)]
pub enum TelemetryError {
    LogTracer(String),
    Subscriber(String),
    Io(String),
    Trace(String),
    Log(String),
}

/// Why telemetry could not be set up, by the texts.
pub enum TelemetryErrorView {
    LogTracer(Seq<char>),
    Subscriber(Seq<char>),
    Io(Seq<char>),
    Trace(Seq<char>),
    Log(Seq<char>),
}

impl View for TelemetryError {
    type V = TelemetryErrorView;

    open spec fn view(&self) -> TelemetryErrorView {
        match *self {
            TelemetryError::LogTracer(cause) => TelemetryErrorView::LogTracer(cause@),
            TelemetryError::Subscriber(cause) => TelemetryErrorView::Subscriber(cause@),
            TelemetryError::Io(cause) => TelemetryErrorView::Io(cause@),
            TelemetryError::Trace(cause) => TelemetryErrorView::Trace(cause@),
            TelemetryError::Log(cause) => TelemetryErrorView::Log(cause@),
        }
    }
}

impl TelemetryErrorView {
    /// What is said of the error.
    pub open spec fn message(self) -> Seq<char> {
        match self {
            TelemetryErrorView::LogTracer(cause) => "failed to install log tracer: "@ + cause,
            TelemetryErrorView::Subscriber(cause) => "failed to install tracing subscriber: "@ + cause,
            TelemetryErrorView::Io(cause) => "failed to prepare telemetry output directory: "@ + cause,
            TelemetryErrorView::Trace(cause) => "failed to configure OTLP exporter: "@ + cause,
            TelemetryErrorView::Log(cause) => "failed to configure OTLP log exporter: "@ + cause,
        }
    }
}

impl TelemetryError {
    /// What is said of the error.
    pub fn message(&self) -> (r: String)
        ensures
            r@ == self@.message(),
    {
        match self {
            TelemetryError::LogTracer(cause) => "failed to install log tracer: ".to_string().concat(cause.as_str()),
            TelemetryError::Subscriber(cause) => {
                "failed to install tracing subscriber: ".to_string().concat(cause.as_str())
            },
            TelemetryError::Io(cause) => {
                "failed to prepare telemetry output directory: ".to_string().concat(cause.as_str())
            },
            TelemetryError::Trace(cause) => "failed to configure OTLP exporter: ".to_string().concat(cause.as_str()),
            TelemetryError::Log(cause) => {
                "failed to configure OTLP log exporter: ".to_string().concat(cause.as_str())
            },
        }
    }
}

/// Every level keeps its name on the way to the collector and to the web view.
pub proof fn lemma_levels_keep_their_names(level: Level)
    ensures
        level == Level::Trace ==> severity_of(level).text() == "TRACE"@ && webview_level_of(level) == LogLevel::Trace,
        level == Level::Debug ==> severity_of(level).text() == "DEBUG"@ && webview_level_of(level) == LogLevel::Debug,
        level == Level::Info ==> severity_of(level).text() == "INFO"@ && webview_level_of(level) == LogLevel::Info,
        level == Level::Warn ==> severity_of(level).text() == "WARN"@ && webview_level_of(level) == LogLevel::Warn,
        level == Level::Error ==> severity_of(level).text() == "ERROR"@ && webview_level_of(level) == LogLevel::Error,
{
}

/// A field adds a message only where it is named so: a debugged one where no
/// message is known, a plain one always, each with its text as it is.
pub proof fn lemma_what_a_field_adds(known: Option<Seq<char>>, name: Seq<char>, text: Seq<char>)
    ensures
        name != "message"@ ==> message_after(known, FieldView::Debugged { name, text }) == known,
        name != "message"@ ==> message_after(known, FieldView::Plain { name, text }) == known,
        name == "message"@ && known is None ==> message_after(known, FieldView::Debugged { name, text }) == Some(text),
        name == "message"@ && known is Some ==> message_after(known, FieldView::Debugged { name, text }) == known,
        name == "message"@ ==> message_after(known, FieldView::Plain { name, text }) == Some(text),
{
}

/// The record of an event holds its message as it is, or its target where it has
/// none; its severity; where it comes from, as far as that is known; and its
/// target last.
pub proof fn lemma_what_a_record_holds(metadata: MetadataView, message: Seq<char>)
    ensures
        record_of(metadata, Some(message)).body == message,
        record_of(metadata, None).body == metadata.target,
        record_of(metadata, Some(message)).severity == Some(severity_of(metadata.level)),
        record_of(metadata, Some(message)).severity_text == Some(severity_of(metadata.level).text()),
        record_of(metadata, None).severity == Some(severity_of(metadata.level)),
        record_of(metadata, None).severity_text == Some(severity_of(metadata.level).text()),
        record_of(metadata, Some(message)).attributes == record_attributes(metadata),
        record_of(metadata, None).attributes == record_attributes(metadata),
        ({
            let attributes = record_attributes(metadata);
            let module: int = if metadata.module is Some {
                1
            } else {
                0
            };
            let file: int = if metadata.file is Some {
                1
            } else {
                0
            };
            let line: int = if metadata.line is Some {
                1
            } else {
                0
            };
            &&& attributes.len() == module + file + line + 1
            &&& metadata.module matches Some(text) ==> attributes[0] == ("code.namespace"@, AttributeView::Text(text))
            &&& metadata.file matches Some(text) ==> attributes[module] == (
                "code.filepath"@,
                AttributeView::Text(text),
            )
            &&& metadata.line matches Some(number) ==> attributes[module + file] == (
                "code.lineno"@,
                AttributeView::Integer(number as i64),
            )
            &&& attributes.last() == ("log.target"@, AttributeView::Text(metadata.target))
        }),
{
}

/// An error tells what failed, and its cause as it is.
pub proof fn lemma_errors_tell_their_cause(cause: Seq<char>)
    ensures
        TelemetryErrorView::LogTracer(cause).message() == "failed to install log tracer: "@ + cause,
        TelemetryErrorView::Subscriber(cause).message() == "failed to install tracing subscriber: "@ + cause,
        TelemetryErrorView::Io(cause).message() == "failed to prepare telemetry output directory: "@ + cause,
        TelemetryErrorView::Trace(cause).message() == "failed to configure OTLP exporter: "@ + cause,
        TelemetryErrorView::Log(cause).message() == "failed to configure OTLP log exporter: "@ + cause,
{
}

/// Events, records and errors are seen with all that they hold.
pub proof fn lemma_telemetry_is_seen_whole(
    metadata: EventMetadata,
    attribute: Attribute,
    record: LogRecord,
    error: TelemetryError,
)
    ensures
        metadata@.level == metadata.level,
        metadata@.target == metadata.target@,
        metadata@.module == metadata.module.deep_view(),
        metadata@.file == metadata.file.deep_view(),
        metadata@.line == metadata.line,
        attribute@.0 == attribute.key@,
        attribute.value matches AttributeValue::Text(text) ==> attribute@.1 == AttributeView::Text(text@),
        attribute.value matches AttributeValue::Integer(n) ==> attribute@.1 == AttributeView::Integer(n),
        record@.body == record.body@,
        record@.severity == record.severity,
        record@.severity_text == record.severity_text.deep_view(),
        record@.attributes.len() == record.attributes@.len(),
        forall|i: int|
            0 <= i < record.attributes@.len() ==> #[trigger] record@.attributes[i] == record.attributes@[i]@,
        error matches TelemetryError::LogTracer(cause) ==> error@ == TelemetryErrorView::LogTracer(cause@),
        error matches TelemetryError::Subscriber(cause) ==> error@ == TelemetryErrorView::Subscriber(cause@),
        error matches TelemetryError::Io(cause) ==> error@ == TelemetryErrorView::Io(cause@),
        error matches TelemetryError::Trace(cause) ==> error@ == TelemetryErrorView::Trace(cause@),
        error matches TelemetryError::Log(cause) ==> error@ == TelemetryErrorView::Log(cause@),
{
}

} // verus!
