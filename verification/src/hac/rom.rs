//! Package containers and the content objects inside them.
use crate::cache::Cache;
use crate::error::{check_kind, kind_error, Error, ErrorView, FileKind};
use crate::hac::ticket::TitleKey;
use crate::path::file_name_of;
use crate::text::{chars_of, decode, equals_at, find_after_last, find_line_with,
    find_trimmed_len, first_line_with, last_field, lemma_line_with_iff_occurs, occurs_in,
    CharClass};
use vstd::prelude::*;
use vstd::utf8::{decode_utf8, valid_utf8};

verus! {

/// The type of a content object, as the tool reports it.
#[derive(Clone, Copy, Debug, PartialEq, Eq)]
pub enum NcaType {
    Control,
    Program,
    Meta,
    Manual,
}

impl NcaType {
    /// The name of the type, as the tool prints it.
    pub open spec fn name(self) -> Seq<char> {
        match self {
            NcaType::Control => "Control"@,
            NcaType::Program => "Program"@,
            NcaType::Meta => "Meta"@,
            NcaType::Manual => "Manual"@,
        }
    }

    /// The type whose name is `token`, letter for letter.
    pub open spec fn parse(token: Seq<char>) -> Option<NcaType> {
        if token == NcaType::Control.name() {
            Some(NcaType::Control)
        } else if token == NcaType::Program.name() {
            Some(NcaType::Program)
        } else if token == NcaType::Meta.name() {
            Some(NcaType::Meta)
        } else if token == NcaType::Manual.name() {
            Some(NcaType::Manual)
        } else {
            None
        }
    }

    /// The name of the type, as the tool prints it.
    pub fn as_str(&self) -> (s: &'static str)
        ensures
            s@ == self.name(),
    {
        match self {
            NcaType::Control => "Control",
            NcaType::Program => "Program",
            NcaType::Meta => "Meta",
            NcaType::Manual => "Manual",
        }
    }

    /// Reads the name of a type. Only the four names are read, and only as
    /// they are written: another case or a blank makes the token unknown.
    pub fn from_str(token: &str) -> (r: Result<NcaType, Error>)
        ensures
            match r {
                Ok(t) => NcaType::parse(token@) == Some(t),
                Err(e) => NcaType::parse(token@) is None && e@ == (ErrorView::UnrecognizedContentType {
                    token: token@,
                }),
            },
    {
        let chars = chars_of(token);
        assert(chars@.subrange(0, chars.len() as int) =~= token@);
        match type_named(chars.as_slice(), 0, chars.len()) {
            Some(t) => Ok(t),
            None => Err(Error::UnrecognizedContentType { token: token.to_owned() }),
        }
    }
}

/// The type whose name stands at `from..to` of `s`.
fn type_named(s: &[char], from: usize, to: usize) -> (r: Option<NcaType>)
    requires
        from <= to <= s.len(),
    ensures
        r == NcaType::parse(s@.subrange(from as int, to as int)),
{
    if equals_at(s, from, to, chars_of(NcaType::Control.as_str()).as_slice()) {
        Some(NcaType::Control)
    } else if equals_at(s, from, to, chars_of(NcaType::Program.as_str()).as_slice()) {
        Some(NcaType::Program)
    } else if equals_at(s, from, to, chars_of(NcaType::Meta.as_str()).as_slice()) {
        Some(NcaType::Meta)
    } else if equals_at(s, from, to, chars_of(NcaType::Manual.as_str()).as_slice()) {
        Some(NcaType::Manual)
    } else {
        None
    }
}

/// The label that precedes the content type in the tool's report.
pub open spec fn marker() -> Seq<char> {
    "Content Type:"@
}

/// What the report of the tool says of the content type. The first line that
/// holds the marker decides: its last field, fields being what whitespace
/// separates, must be the name of a type.
pub open spec fn classified(report: Seq<char>) -> Result<NcaType, ErrorView> {
    match first_line_with(report, marker()) {
        None => Err(ErrorView::MarkerNotFound),
        Some(line) => {
            let token = last_field(line, CharClass::Whitespace);
            match NcaType::parse(token) {
                Some(t) => Ok(t),
                None => Err(ErrorView::UnrecognizedContentType { token }),
            }
        },
    }
}

/// Reads the content type from the report that the tool printed.
pub fn classify(report: &str) -> (r: Result<NcaType, Error>)
    ensures
        match r {
            Ok(t) => classified(report@) == Ok::<NcaType, ErrorView>(t),
            Err(e) => classified(report@) == Err::<NcaType, ErrorView>(e@),
        },
{
    let chars = chars_of(report);
    let label = chars_of("Content Type:");
    let (from, to) = match find_line_with(chars.as_slice(), label.as_slice()) {
        Some(bounds) => bounds,
        None => { return Err(Error::MarkerNotFound); },
    };
    let ghost line = chars@.subrange(from as int, to as int);
    let end = find_trimmed_len(chars.as_slice(), from, to, CharClass::Whitespace);
    let start = find_after_last(chars.as_slice(), from, end, CharClass::Whitespace);
    proof {
        let trimmed = line.take(end - from);
        assert(trimmed =~= chars@.subrange(from as int, end as int));
        assert(trimmed.skip(start - from) =~= chars@.subrange(start as int, end as int));
    }
    match type_named(chars.as_slice(), start, end) {
        Some(t) => Ok(t),
        None => Err(Error::UnrecognizedContentType {
            token: report.substring_char(start, end).to_owned(),
        }),
    }
}

/// One run of a tool: which tool, and what it is started with. The caller
/// runs it and hands back what it printed.
#[derive(Clone, Debug, PartialEq, Eq)]
pub struct ToolCall {
    pub tool: Cache,
    pub args: Vec<String>,
}

/// What a [`ToolCall`] holds, in mathematical terms.
pub ghost struct ToolCallView {
    pub tool: Cache,
    pub args: Seq<Seq<char>>,
}

impl View for ToolCall {
    type V = ToolCallView;

    open spec fn view(&self) -> ToolCallView {
        ToolCallView { tool: self.tool, args: self.args.deep_view() }
    }
}

/// A package container on disk.
#[derive(Debug)]
pub struct Nsp {
    /// Where the container lies.
    pub path: String,
    /// The title key, once a ticket was found among the extracted files.
    pub title_key: Option<TitleKey>,
    /// The directory that the container was last extracted into.
    pub extracted_data: Option<String>,
}

/// What an [`Nsp`] holds, in mathematical terms.
pub ghost struct NspView {
    pub path: Seq<char>,
    pub title_key: Option<Seq<u8>>,
    pub extracted_data: Option<Seq<char>>,
}

impl View for Nsp {
    type V = NspView;

    open spec fn view(&self) -> NspView {
        NspView {
            path: self.path@,
            title_key: match self.title_key {
                Some(key) => Some(key@),
                None => None,
            },
            extracted_data: match self.extracted_data {
                Some(dir) => Some(dir@),
                None => None,
            },
        }
    }
}

impl Clone for Nsp {
    fn clone(&self) -> (copy: Nsp)
        ensures
            copy@ == self@,
    {
        Nsp {
            path: self.path.clone(),
            title_key: match &self.title_key {
                Some(key) => Some(key.clone()),
                None => None,
            },
            extracted_data: match &self.extracted_data {
                Some(dir) => Some(dir.clone()),
                None => None,
            },
        }
    }
}

impl NspView {
    /// The container as it is opened: nothing extracted, no key.
    pub open spec fn opened(path: Seq<char>) -> NspView {
        NspView { path, title_key: None, extracted_data: None }
    }

    /// Whether the path names a container, and a key is known only where an
    /// extraction is on record.
    pub open spec fn wf(self) -> bool {
        &&& FileKind::Container.accepts(self.path)
        &&& self.title_key is Some ==> self.extracted_data is Some
    }
}

/// The run of the tool that extracts the container at `path` into `dir`.
pub open spec fn extraction(path: Seq<char>, dir: Seq<char>) -> ToolCallView {
    ToolCallView { tool: Cache::Hactool, args: seq!["-t"@, "pfs0"@, "--pfs0dir"@, dir, path] }
}

/// The run of the tool that inspects the content object at `path`.
pub open spec fn inspection(path: Seq<char>) -> ToolCallView {
    ToolCallView { tool: Cache::Hactool, args: seq![path] }
}

/// The container after the tool was run to extract it into `dir` and printed
/// `stdout`, and whether that counts as done. Output that is no text is a
/// failure of the tool and leaves the container as it was.
pub open spec fn extracted(s: NspView, dir: Seq<char>, stdout: Seq<u8>) -> (
    NspView,
    Result<(), ErrorView>,
) {
    if valid_utf8(stdout) {
        (NspView { extracted_data: Some(dir), ..s }, Ok(()))
    } else {
        (s, Err(ErrorView::ExternalToolFailure))
    }
}

/// Whether `path` names a ticket.
pub open spec fn is_ticket(path: Seq<char>) -> bool {
    FileKind::Ticket.accepts(path)
}

/// The first of `entries` that names a ticket.
pub open spec fn ticket_in(entries: Seq<Seq<char>>) -> Option<Seq<char>>
    decreases entries.len(),
{
    if entries.len() == 0 {
        None
    } else if is_ticket(entries[0]) {
        Some(entries[0])
    } else {
        ticket_in(entries.drop_first())
    }
}

/// What happened while a title key is recovered, as the caller reports it.
#[derive(Clone, Debug)]
pub enum KeyEvent {
    /// The recovery starts.
    Begin,
    /// The tool was run to extract the container into `dir` and printed
    /// `stdout`.
    Extracted { dir: String, stdout: Vec<u8> },
    /// The extraction directory was read: `entries` are the paths of the
    /// entries that lie directly in it.
    Listed { entries: Vec<String> },
    /// The ticket was read and held `key`.
    TicketRead { key: TitleKey },
}

/// What a [`KeyEvent`] holds, in mathematical terms.
pub ghost enum KeyEventView {
    Begin,
    Extracted { dir: Seq<char>, stdout: Seq<u8> },
    Listed { entries: Seq<Seq<char>> },
    TicketRead { key: Seq<u8> },
}

impl View for KeyEvent {
    type V = KeyEventView;

    open spec fn view(&self) -> KeyEventView {
        match self {
            KeyEvent::Begin => KeyEventView::Begin,
            KeyEvent::Extracted { dir, stdout } => KeyEventView::Extracted {
                dir: dir@,
                stdout: stdout@,
            },
            KeyEvent::Listed { entries } => KeyEventView::Listed { entries: entries.deep_view() },
            KeyEvent::TicketRead { key } => KeyEventView::TicketRead { key: key@ },
        }
    }
}

/// What the caller is to do next while a title key is recovered.
#[derive(Clone, Debug, PartialEq, Eq)]
pub enum KeyAction {
    /// Make a fresh temporary directory, run the tool to extract the container
    /// into it and report `Extracted`.
    Extract,
    /// Read the directory `dir` and report `Listed`.
    List { dir: String },
    /// Read the ticket at `path` and report `TicketRead`.
    ReadTicket { path: String },
    /// Nothing is left to do: the key is in the container, or there is no
    /// ticket and so no key.
    Done,
}

/// What a [`KeyAction`] holds, in mathematical terms.
pub ghost enum KeyActionView {
    Extract,
    List { dir: Seq<char> },
    ReadTicket { path: Seq<char> },
    Done,
}

impl View for KeyAction {
    type V = KeyActionView;

    open spec fn view(&self) -> KeyActionView {
        match self {
            KeyAction::Extract => KeyActionView::Extract,
            KeyAction::List { dir } => KeyActionView::List { dir: dir@ },
            KeyAction::ReadTicket { path } => KeyActionView::ReadTicket { path: path@ },
            KeyAction::Done => KeyActionView::Done,
        }
    }
}

/// What a container in state `s` needs next for its title key: an extraction
/// where none was made, the entries of the extraction directory where the key
/// is not known, else nothing.
pub open spec fn next_action(s: NspView) -> KeyActionView {
    match s.extracted_data {
        None => KeyActionView::Extract,
        Some(dir) => if s.title_key is None {
            KeyActionView::List { dir }
        } else {
            KeyActionView::Done
        },
    }
}

/// The container after `event`, and what is to be done next. A listing or a
/// ticket counts only where an extraction is on record and the key is not
/// known: else the container stays as it is and the answer is what it needs
/// next.
pub open spec fn key_step(s: NspView, event: KeyEventView) -> (
    NspView,
    Result<KeyActionView, ErrorView>,
) {
    match event {
        KeyEventView::Begin => (s, Ok(next_action(s))),
        KeyEventView::Extracted { dir, stdout } => {
            let (after, done) = extracted(s, dir, stdout);
            match done {
                Ok(_) => (after, Ok(next_action(after))),
                Err(e) => (after, Err(e)),
            }
        },
        KeyEventView::Listed { entries } => if s.extracted_data is None || s.title_key is Some {
            (s, Ok(next_action(s)))
        } else {
            match ticket_in(entries) {
                Some(path) => (s, Ok(KeyActionView::ReadTicket { path })),
                None => (s, Ok(KeyActionView::Done)),
            }
        },
        KeyEventView::TicketRead { key } => if s.extracted_data is None || s.title_key is Some {
            (s, Ok(next_action(s)))
        } else {
            (NspView { title_key: Some(key), ..s }, Ok(KeyActionView::Done))
        },
    }
}

/// The position of the first of `entries` that names a ticket.
pub fn find_ticket(entries: &Vec<String>) -> (r: Option<usize>)
    ensures
        match r {
            Some(i) => i < entries.len() && ticket_in(entries.deep_view()) == Some(entries[i as int]@),
            None => ticket_in(entries.deep_view()) is None,
        },
{
    let ghost all = entries.deep_view();
    let mut i: usize = 0;
    assert(all.skip(0) =~= all);
    while i < entries.len()
        invariant
            i <= entries.len(),
            all == entries.deep_view(),
            ticket_in(all) == ticket_in(all.skip(i as int)),
        decreases entries.len() - i,
    {
        assert(all.skip(i as int).drop_first() =~= all.skip(i + 1));
        if FileKind::Ticket.admits(entries[i].as_str()) {
            return Some(i);
        }
        i += 1;
    }
    None
}

impl Nsp {
    /// Opens the container at `path`. Only the path is looked at: its file
    /// name must have the extension of a container. A file name with another
    /// extension, or with none, is of the wrong kind; a path without a file
    /// name names no file.
    pub fn from(path: &str) -> (r: Result<Nsp, Error>)
        ensures
            match r {
                Ok(nsp) => kind_error(path@, FileKind::Container) is None && nsp@
                    == NspView::opened(path@),
                Err(e) => kind_error(path@, FileKind::Container) == Some(e@),
            },
            r is Ok <==> FileKind::Container.accepts(path@),
            r matches Ok(nsp) ==> nsp@.wf(),
            file_name_of(path@) is Some && !FileKind::Container.accepts(path@) ==> (r matches Err(
                Error::WrongFileKind { file_name, expected },
            ) && Some(file_name@) == file_name_of(path@) && expected == FileKind::Container),
            file_name_of(path@) is None ==> r == Err::<Nsp, Error>(Error::MissingFile),
    {
        match check_kind(path, FileKind::Container) {
            Ok(_) => Ok(Nsp { path: path.to_owned(), title_key: None, extracted_data: None }),
            Err(e) => Err(e),
        }
    }

    /// The run of the tool that extracts this container into `dir`.
    pub fn extraction(&self, dir: &str) -> (call: ToolCall)
        ensures
            call@ == extraction(self@.path, dir@),
    {
        let mut args: Vec<String> = Vec::new();
        args.push("-t".to_owned());
        args.push("pfs0".to_owned());
        args.push("--pfs0dir".to_owned());
        args.push(dir.to_owned());
        args.push(self.path.clone());
        assert(args.deep_view() =~= extraction(self@.path, dir@).args);
        ToolCall { tool: Cache::Hactool, args }
    }

    /// Takes note that the tool was run to extract this container into `dir`
    /// and printed `stdout`. Where that is text, `dir` becomes the extraction
    /// directory, whatever was recorded before.
    pub fn extract_data_to(&mut self, dir: &str, stdout: &[u8]) -> (r: Result<(), Error>)
        ensures
            final(self)@ == extracted(old(self)@, dir@, stdout@).0,
            match r {
                Ok(_) => extracted(old(self)@, dir@, stdout@).1 is Ok,
                Err(e) => extracted(old(self)@, dir@, stdout@).1 == Err::<(), ErrorView>(e@),
            },
    {
        match decode(stdout) {
            Some(_) => {
                self.extracted_data = Some(dir.to_owned());
                Ok(())
            },
            None => Err(Error::ExternalToolFailure),
        }
    }

    /// What this container needs next for its title key.
    pub fn next_action(&self) -> (action: KeyAction)
        ensures
            action@ == next_action(self@),
    {
        match &self.extracted_data {
            None => KeyAction::Extract,
            Some(dir) => if self.title_key.is_none() {
                KeyAction::List { dir: dir.clone() }
            } else {
                KeyAction::Done
            },
        }
    }

    /// Recovers the title key, one step at a time: takes what happened and
    /// says what is to be done next. The caller starts with `Begin`, does what
    /// is asked and reports it, until `Done` comes back; the key, if there is
    /// one, is then in `title_key`. A report that was not asked for changes
    /// nothing and is answered with what is needed next.
    pub fn extract_title_key(&mut self, event: KeyEvent) -> (r: Result<KeyAction, Error>)
        ensures
            final(self)@ == key_step(old(self)@, event@).0,
            match r {
                Ok(action) => key_step(old(self)@, event@).1 == Ok::<KeyActionView, ErrorView>(
                    action@,
                ),
                Err(e) => key_step(old(self)@, event@).1 == Err::<KeyActionView, ErrorView>(e@),
            },
    {
        match event {
            KeyEvent::Begin => Ok(self.next_action()),
            KeyEvent::Extracted { dir, stdout } => {
                match self.extract_data_to(dir.as_str(), stdout.as_slice()) {
                    Ok(_) => Ok(self.next_action()),
                    Err(e) => Err(e),
                }
            },
            KeyEvent::Listed { entries } => {
                if self.extracted_data.is_none() || self.title_key.is_some() {
                    Ok(self.next_action())
                } else {
                    match find_ticket(&entries) {
                        Some(i) => Ok(KeyAction::ReadTicket { path: entries[i].clone() }),
                        None => Ok(KeyAction::Done),
                    }
                }
            },
            KeyEvent::TicketRead { key } => {
                if self.extracted_data.is_none() || self.title_key.is_some() {
                    Ok(self.next_action())
                } else {
                    self.title_key = Some(key);
                    Ok(KeyAction::Done)
                }
            },
        }
    }
}

/// A content object inside an extracted container, with the type that the
/// tool reported for it. There is no object without a type: where the report
/// cannot be read, none is made.
#[derive(Debug)]
pub struct Nca {
    path: String,
    content_type: NcaType,
}

/// What an [`Nca`] holds, in mathematical terms.
pub ghost struct NcaView {
    pub path: Seq<char>,
    pub content_type: NcaType,
}

impl View for Nca {
    type V = NcaView;

    closed spec fn view(&self) -> NcaView {
        NcaView { path: self.path@, content_type: self.content_type }
    }
}

impl Clone for Nca {
    fn clone(&self) -> (copy: Nca)
        ensures
            copy@ == self@,
    {
        proof {
            use_type_invariant(self);
        }
        Nca { path: self.path.clone(), content_type: self.content_type }
    }
}

/// The content object at `path`, given that the tool, run on it, printed
/// `stdout`. The path must name a content object, the output must be text,
/// and the text must give the type.
pub open spec fn inspected(path: Seq<char>, stdout: Seq<u8>) -> Result<NcaView, ErrorView> {
    match kind_error(path, FileKind::InnerContent) {
        Some(e) => Err(e),
        None => if !valid_utf8(stdout) {
            Err(ErrorView::ExternalToolFailure)
        } else {
            match classified(decode_utf8(stdout)) {
                Ok(content_type) => Ok(NcaView { path, content_type }),
                Err(e) => Err(e),
            }
        },
    }
}

impl Nca {
    #[verifier::type_invariant]
    spec fn names_content(&self) -> bool {
        FileKind::InnerContent.accepts(self.path@)
    }

    /// The run of the tool that inspects the content object at `path`: the
    /// tool is given the path alone. A path that names no content object is
    /// refused before any tool is run.
    pub fn inspection(path: &str) -> (r: Result<ToolCall, Error>)
        ensures
            match r {
                Ok(call) => kind_error(path@, FileKind::InnerContent) is None && call@
                    == inspection(path@),
                Err(e) => kind_error(path@, FileKind::InnerContent) == Some(e@),
            },
    {
        match check_kind(path, FileKind::InnerContent) {
            Ok(_) => {
                let mut args: Vec<String> = Vec::new();
                args.push(path.to_owned());
                assert(args.deep_view() =~= inspection(path@).args);
                Ok(ToolCall { tool: Cache::Hactool, args })
            },
            Err(e) => Err(e),
        }
    }

    /// Makes the content object at `path` from what the tool printed when it
    /// was run on it.
    pub fn from(path: &str, stdout: &[u8]) -> (r: Result<Nca, Error>)
        ensures
            match r {
                Ok(nca) => inspected(path@, stdout@) == Ok::<NcaView, ErrorView>(nca@),
                Err(e) => inspected(path@, stdout@) == Err::<NcaView, ErrorView>(e@),
            },
    {
        match check_kind(path, FileKind::InnerContent) {
            Ok(_) => {},
            Err(e) => { return Err(e); },
        }
        let report = match decode(stdout) {
            Some(text) => text,
            None => { return Err(Error::ExternalToolFailure); },
        };
        match classify(report) {
            Ok(content_type) => Ok(Nca { path: path.to_owned(), content_type }),
            Err(e) => Err(e),
        }
    }

    /// Where the content object lies. The path names a content object.
    pub fn path(&self) -> (path: &str)
        ensures
            path@ == self@.path,
            FileKind::InnerContent.accepts(path@),
    {
        proof {
            use_type_invariant(self);
        }
        self.path.as_str()
    }

    /// The type of the content object.
    pub fn content_type(&self) -> (t: NcaType)
        ensures
            t == self@.content_type,
    {
        self.content_type
    }
}

/// A type is read from its own name and from nothing else.
pub proof fn law_parse_names(token: Seq<char>, t: NcaType)
    ensures
        NcaType::parse(token) == Some(t) <==> token == t.name(),
{
    reveal_strlit("Control");
    reveal_strlit("Program");
    reveal_strlit("Meta");
    reveal_strlit("Manual");
    assert("Control"@[0] != "Program"@[0]);
    assert("Meta"@.len() != "Manual"@.len());
}

/// A report is refused for want of the marker exactly where the marker occurs
/// nowhere in it.
pub proof fn law_marker_not_found(report: Seq<char>)
    ensures
        classified(report) == Err::<NcaType, ErrorView>(ErrorView::MarkerNotFound) <==> !occurs_in(
            report,
            marker(),
        ),
{
    reveal_strlit("Content Type:");
    assert forall|j: int| 0 <= j < marker().len() implies marker()[j] != '\n' by {}
    lemma_line_with_iff_occurs(report, marker());
}

/// Extracting twice asks the tool twice, each time for the same container,
/// and leaves the directory of the second extraction on record; where the
/// second run of the tool failed, what the first left stays.
pub proof fn law_extract_twice(
    s: NspView,
    first_dir: Seq<char>,
    first_out: Seq<u8>,
    second_dir: Seq<char>,
    second_out: Seq<u8>,
)
    ensures
        ({
            let once = extracted(s, first_dir, first_out).0;
            let twice = extracted(once, second_dir, second_out);
            &&& extraction(once.path, second_dir) == extraction(s.path, second_dir)
            &&& valid_utf8(second_out) ==> twice.1 is Ok && twice.0.extracted_data == Some(
                second_dir,
            )
            &&& !valid_utf8(second_out) ==> twice.1 is Err && twice.0 == once
            &&& twice.0.path == s.path
            &&& twice.0.title_key == s.title_key
            &&& s.wf() ==> twice.0.wf()
        }),
{
}

/// No step of a recovery changes the path, forgets the extraction directory
/// or replaces a key that is known; and a key comes to be known only where
/// an extraction is on record.
pub proof fn law_steps_keep(s: NspView, event: KeyEventView)
    ensures
        ({
            let after = key_step(s, event).0;
            &&& after.path == s.path
            &&& s.wf() ==> after.wf()
            &&& s.extracted_data is Some ==> after.extracted_data is Some
            &&& s.title_key is Some ==> after.title_key == s.title_key
            &&& after.title_key is Some && s.title_key is None ==> s.extracted_data is Some
        }),
{
}

/// What the caller's surroundings answer while a title key is recovered.
pub ghost struct World {
    /// The fresh temporary directory that an extraction is given.
    pub temp_dir: Seq<char>,
    /// What the tool prints when it extracts.
    pub tool_output: Seq<u8>,
    /// The entries of each directory that can be read.
    pub listings: Map<Seq<char>, Seq<Seq<char>>>,
    /// The key in each ticket that can be read.
    pub tickets: Map<Seq<char>, Seq<u8>>,
}

/// How a recovery went.
pub ghost struct Recovery {
    /// The container afterwards.
    pub state: NspView,
    /// How often the tool was run to extract.
    pub extractions: nat,
    /// Whether the recovery came to its end. It does not where the tool
    /// fails, or a directory or a ticket cannot be read.
    pub done: bool,
}

/// One recovery of the title key of a container in state `s`: the caller
/// starts with `Begin` and does what `key_step` asks, in surroundings that
/// answer as `w` says.
pub open spec fn recover(s: NspView, w: World) -> Recovery {
    let begun = key_step(s, KeyEventView::Begin);
    let extracts = begun.1 == Ok::<KeyActionView, ErrorView>(KeyActionView::Extract);
    let extractions: nat = if extracts { 1 } else { 0 };
    let ready = if extracts {
        key_step(begun.0, KeyEventView::Extracted { dir: w.temp_dir, stdout: w.tool_output })
    } else {
        begun
    };
    match ready.1 {
        Ok(KeyActionView::List { dir }) => if w.listings.dom().contains(dir) {
            let listed = key_step(ready.0, KeyEventView::Listed { entries: w.listings[dir] });
            match listed.1 {
                Ok(KeyActionView::ReadTicket { path }) => if w.tickets.dom().contains(path) {
                    let read = key_step(listed.0, KeyEventView::TicketRead { key: w.tickets[path] });
                    Recovery { state: read.0, extractions, done: read.1 == Ok::<
                        KeyActionView,
                        ErrorView,
                    >(KeyActionView::Done) }
                } else {
                    Recovery { state: listed.0, extractions, done: false }
                },
                other => Recovery { state: listed.0, extractions, done: other == Ok::<
                    KeyActionView,
                    ErrorView,
                >(KeyActionView::Done) },
            }
        } else {
            Recovery { state: ready.0, extractions, done: false }
        },
        other => Recovery { state: ready.0, extractions, done: other == Ok::<
            KeyActionView,
            ErrorView,
        >(KeyActionView::Done) },
    }
}

/// Recovering the title key twice, with nothing extracted in between, runs
/// the tool at most once and gives the same key both times: once the first
/// recovery has the container extracted, the second asks for no extraction,
/// ends as the first did and leaves the container as the first left it.
pub proof fn law_recover_twice(s: NspView, w: World)
    requires
        recover(s, w).state.extracted_data is Some,
    ensures
        ({
            let first = recover(s, w);
            let second = recover(first.state, w);
            &&& second.extractions == 0
            &&& first.extractions + second.extractions <= 1
            &&& second.state.title_key == first.state.title_key
            &&& second.state == first.state
            &&& second.done == first.done
        }),
{
}

/// A recovery that comes to its end has the container extracted.
pub proof fn law_done_is_extracted(s: NspView, w: World)
    requires
        recover(s, w).done,
    ensures
        recover(s, w).state.extracted_data is Some,
{
}

/// A key that is known is kept: a recovery then asks for nothing but, at
/// most, the extraction that was never made, and ends with the same key,
/// whatever the surroundings answer.
pub proof fn law_known_key_is_kept(s: NspView, w: World)
    requires
        s.title_key is Some,
    ensures
        recover(s, w).state.title_key == s.title_key,
        s.extracted_data is Some ==> recover(s, w) == (Recovery {
            state: s,
            extractions: 0,
            done: true,
        }),
{
}

} // verus!
