use vstd::prelude::*;
use crate::text::same_text;

verus! {

/// The lifecycle state of a workspace resource (cluster, job, pipeline,
/// warehouse) as the dashboard classifies it.
#[derive(Debug, Clone, PartialEq, Eq)]
pub enum Status {
    Running,
    Stopped,
    Pending,
    Failed,
    Unknown(String),
}

/// Mathematical model of a [`Status`].
pub enum StatusView {
    Running,
    Stopped,
    Pending,
    Failed,
    Unknown(Seq<char>),
}

impl View for Status {
    type V = StatusView;

    open spec fn view(&self) -> StatusView {
        match self {
            Status::Running => StatusView::Running,
            Status::Stopped => StatusView::Stopped,
            Status::Pending => StatusView::Pending,
            Status::Failed => StatusView::Failed,
            Status::Unknown(s) => StatusView::Unknown(s@),
        }
    }
}

/// What `str::to_uppercase` returns for a string with these characters.
pub uninterp spec fn upper_string(s: Seq<char>) -> String;

/// The characters of `str::to_uppercase`'s result.
pub open spec fn uppercase(s: Seq<char>) -> Seq<char> {
    upper_string(s)@
}

/// Every character is in the ASCII range.
pub open spec fn all_ascii(s: Seq<char>) -> bool {
    forall|i: int| 0 <= i < s.len() ==> (s[i] as u32) < 128
}

/// The ASCII upper-case counterpart of a character (identity outside `a..=z`).
pub open spec fn ascii_upper(c: char) -> char {
    if 'a' <= c && c <= 'z' {
        ((c as u32) - 32) as char
    } else {
        c
    }
}

/// ASCII upper-casing of every character.
pub open spec fn ascii_upper_all(s: Seq<char>) -> Seq<char> {
    s.map_values(|c: char| ascii_upper(c))
}

/// Calls `str::to_uppercase`. Its result is named `upper_string`; on a string
/// made of ASCII characters only, std documents that letters `a..=z` become
/// `A..=Z` and every other character is kept, which the second clause states.
/// Nothing more is claimed about non-ASCII input.
#[verifier::external_body]
fn to_uppercase(s: &str) -> (r: String)
    ensures
        r == upper_string(s@),
        all_ascii(s@) ==> r@ == ascii_upper_all(s@),
{
    s.to_uppercase()
}

/// Which status an already upper-cased state name denotes.
pub open spec fn status_of_upper(u: Seq<char>) -> StatusView {
    if u == "RUNNING"@ {
        StatusView::Running
    } else if u == "IDLE"@ || u == "STOPPED"@ || u == "TERMINATED"@ || u == "DELETED"@ {
        StatusView::Stopped
    } else if u == "PENDING"@ || u == "STARTING"@ || u == "RESTARTING"@ || u == "DELETING"@ {
        StatusView::Pending
    } else if u == "FAILED"@ || u == "ERROR"@ {
        StatusView::Failed
    } else {
        StatusView::Unknown(u)
    }
}

/// The status that an already upper-cased state name denotes; an
/// unrecognised name is kept as it is.
pub open spec fn status_from_text(u: String) -> Status {
    match status_of_upper(u@) {
        StatusView::Running => Status::Running,
        StatusView::Stopped => Status::Stopped,
        StatusView::Pending => Status::Pending,
        StatusView::Failed => Status::Failed,
        StatusView::Unknown(_) => Status::Unknown(u),
    }
}

/// The text shown for a status.
pub open spec fn label_of(s: StatusView) -> Seq<char> {
    match s {
        StatusView::Running => "RUNNING"@,
        StatusView::Stopped => "IDLE"@,
        StatusView::Pending => "PENDING"@,
        StatusView::Failed => "FAILED"@,
        StatusView::Unknown(t) => t,
    }
}

impl Status {
    /// Classifies a state name that has already been upper-cased.
    pub fn from_upper(u: String) -> (r: Status)
        ensures
            r == status_from_text(u),
            r@ == status_of_upper(u@),
    {
        let t = u.as_str();
        if same_text(t, "RUNNING") {
            Status::Running
        } else if same_text(t, "IDLE") || same_text(t, "STOPPED") || same_text(t, "TERMINATED")
            || same_text(t, "DELETED") {
            Status::Stopped
        } else if same_text(t, "PENDING") || same_text(t, "STARTING") || same_text(t, "RESTARTING")
            || same_text(t, "DELETING") {
            Status::Pending
        } else if same_text(t, "FAILED") || same_text(t, "ERROR") {
            Status::Failed
        } else {
            Status::Unknown(u)
        }
    }

    /// Classifies a state name as reported by the Databricks CLI, ignoring case.
    pub fn from_str(s: &str) -> (r: Status)
        ensures
            r == status_from_text(upper_string(s@)),
            r@ == status_of_upper(uppercase(s@)),
            all_ascii(s@) ==> r@ == status_of_upper(ascii_upper_all(s@)),
    {
        Status::from_upper(to_uppercase(s))
    }

    /// The text shown for this status.
    pub fn label(&self) -> (r: &str)
        ensures
            r@ == label_of(self@),
    {
        match self {
            Status::Running => "RUNNING",
            Status::Stopped => "IDLE",
            Status::Pending => "PENDING",
            Status::Failed => "FAILED",
            Status::Unknown(s) => s.as_str(),
        }
    }
}

/// Reading back the label of a status gives that status again: always for
/// the four known states, and for an unrecognised state whose text is plain
/// upper-case ASCII that names no known state.
pub proof fn lemma_label_round_trip(st: StatusView)
    requires
        st is Unknown ==> {
            &&& all_ascii(label_of(st))
            &&& ascii_upper_all(label_of(st)) == label_of(st)
            &&& status_of_upper(label_of(st)) is Unknown
        },
    ensures
        all_ascii(label_of(st)),
        status_of_upper(ascii_upper_all(label_of(st))) == st,
{
    reveal_strlit("RUNNING");
    reveal_strlit("IDLE");
    reveal_strlit("PENDING");
    reveal_strlit("FAILED");
    reveal_strlit("STOPPED");
    reveal_strlit("TERMINATED");
    reveal_strlit("DELETED");
    reveal_strlit("STARTING");
    reveal_strlit("RESTARTING");
    reveal_strlit("DELETING");
    reveal_strlit("ERROR");
    let l = label_of(st);
    if !(st is Unknown) {
        assert(ascii_upper_all(l) =~= l);
        match st {
            StatusView::Running => {},
            StatusView::Stopped => {
                assert(l[0] == 'I');
            },
            StatusView::Pending => {
                assert(l[0] == 'P' && l.len() == 7);
            },
            StatusView::Failed => {
                assert(l[0] == 'F' && l.len() == 6);
            },
            StatusView::Unknown(_) => {},
        }
    }
}

/// How an upper-cased state name is classified: it is Running exactly for
/// RUNNING; Stopped exactly for IDLE, STOPPED, TERMINATED and DELETED; Pending
/// exactly for PENDING, STARTING, RESTARTING and DELETING; Failed exactly for
/// FAILED and ERROR; any other name is Unknown and keeps its text.
pub proof fn lemma_state_classification(u: Seq<char>)
    ensures
        (status_of_upper(u) is Running) <==> u == "RUNNING"@,
        (status_of_upper(u) is Stopped) <==> (u == "IDLE"@ || u == "STOPPED"@ || u == "TERMINATED"@
            || u == "DELETED"@),
        (status_of_upper(u) is Pending) <==> (u == "PENDING"@ || u == "STARTING"@ || u
            == "RESTARTING"@ || u == "DELETING"@),
        (status_of_upper(u) is Failed) <==> (u == "FAILED"@ || u == "ERROR"@),
        (status_of_upper(u) is Unknown) ==> status_of_upper(u) == StatusView::Unknown(u),
        !(u == "RUNNING"@ || u == "IDLE"@ || u == "STOPPED"@ || u == "TERMINATED"@ || u
            == "DELETED"@ || u == "PENDING"@ || u == "STARTING"@ || u == "RESTARTING"@ || u
            == "DELETING"@ || u == "FAILED"@ || u == "ERROR"@) ==> status_of_upper(u)
            == StatusView::Unknown(u),
{
    reveal_strlit("RUNNING");
    reveal_strlit("IDLE");
    reveal_strlit("PENDING");
    reveal_strlit("FAILED");
    reveal_strlit("STOPPED");
    reveal_strlit("TERMINATED");
    reveal_strlit("DELETED");
    reveal_strlit("STARTING");
    reveal_strlit("RESTARTING");
    reveal_strlit("DELETING");
    reveal_strlit("ERROR");
    assert("RUNNING"@.len() == 7);
    assert("IDLE"@.len() == 4);
    assert("PENDING"@.len() == 7);
    assert("FAILED"@.len() == 6);
    assert("STOPPED"@.len() == 7);
    assert("TERMINATED"@.len() == 10);
    assert("DELETED"@.len() == 7);
    assert("STARTING"@.len() == 8);
    assert("RESTARTING"@.len() == 10);
    assert("DELETING"@.len() == 8);
    assert("ERROR"@.len() == 5);
    assert("STOPPED"@[0] != "RUNNING"@[0]);
    assert("DELETED"@[0] != "RUNNING"@[0]);
    assert("PENDING"@[0] != "RUNNING"@[0]);
    assert("PENDING"@[0] != "STOPPED"@[0]);
    assert("PENDING"@[0] != "DELETED"@[0]);
    assert("RESTARTING"@[0] != "TERMINATED"@[0]);
}

/// Parsing a state name and classifying its upper-cased text agree: the
/// status of an executable parse is the classification above applied to the
/// upper-cased name, so an unknown name keeps its upper-cased text.
pub proof fn lemma_parse_keeps_unknown_text(u: String)
    ensures
        status_from_text(u)@ == status_of_upper(u@),
        (status_from_text(u) is Unknown) ==> status_from_text(u) == Status::Unknown(u),
{
}

impl std::str::FromStr for Status {
    type Err = std::convert::Infallible;

    /// Parsing never fails; it classifies the name as [`Status::from_str`] does.
    fn from_str(s: &str) -> Result<Status, std::convert::Infallible>
        returns
            Ok::<Status, std::convert::Infallible>(status_from_text(upper_string(s@))),
    {
        Ok(Status::from_str(s))
    }
}

/// What a panel shows.
#[derive(Debug, Clone)]
pub enum Shape {
    List(Vec<ListItem>),
    Table(TableData),
    Badge(BadgeData),
    Text(String),
}

/// One resource in a list panel.
#[derive(Debug, Clone)]
pub struct ListItem {
    pub name: String,
    pub status: Status,
    pub detail: Option<String>,
    /// A name that identifies the resource across listings, where known.
    pub id: Option<String>,
    /// Earlier statuses of the resource, oldest first.
    pub history: Vec<Status>,
}

/// A table with a header row.
#[derive(Debug, Clone)]
pub struct TableData {
    pub headers: Vec<String>,
    pub rows: Vec<Vec<String>>,
}

/// A labelled single value.
#[derive(Debug, Clone)]
pub struct BadgeData {
    pub label: String,
    pub value: String,
}

/// Mathematical model of a [`ListItem`].
pub struct ListItemView {
    pub name: Seq<char>,
    pub status: StatusView,
    pub detail: Option<Seq<char>>,
    pub id: Option<Seq<char>>,
    pub history: Seq<StatusView>,
}

/// Mathematical model of a [`TableData`].
pub struct TableView {
    pub headers: Seq<Seq<char>>,
    pub rows: Seq<Seq<Seq<char>>>,
}

/// Mathematical model of a [`BadgeData`].
pub struct BadgeView {
    pub label: Seq<char>,
    pub value: Seq<char>,
}

/// Mathematical model of a [`Shape`].
pub enum ShapeView {
    List(Seq<ListItemView>),
    Table(TableView),
    Badge(BadgeView),
    Text(Seq<char>),
}

/// The text of an optional string.
pub open spec fn opt_text(o: Option<String>) -> Option<Seq<char>> {
    match o {
        Some(s) => Some(s@),
        None => None,
    }
}

impl View for ListItem {
    type V = ListItemView;

    open spec fn view(&self) -> ListItemView {
        ListItemView {
            name: self.name@,
            status: self.status@,
            detail: opt_text(self.detail),
            id: opt_text(self.id),
            history: self.history@.map_values(|s: Status| s@),
        }
    }
}

impl View for TableData {
    type V = TableView;

    open spec fn view(&self) -> TableView {
        TableView {
            headers: self.headers@.map_values(|h: String| h@),
            rows: self.rows@.map_values(|r: Vec<String>| r@.map_values(|c: String| c@)),
        }
    }
}

impl View for BadgeData {
    type V = BadgeView;

    open spec fn view(&self) -> BadgeView {
        BadgeView { label: self.label@, value: self.value@ }
    }
}

impl View for Shape {
    type V = ShapeView;

    open spec fn view(&self) -> ShapeView {
        match self {
            Shape::List(items) => ShapeView::List(items@.map_values(|i: ListItem| i@)),
            Shape::Table(t) => ShapeView::Table(t@),
            Shape::Badge(b) => ShapeView::Badge(b@),
            Shape::Text(t) => ShapeView::Text(t@),
        }
    }
}

} // verus!
