//! The arguments that the dashboard's calls take, and how each is read out
//! of a raw value.

use crate::codec::Decode;
use crate::value::{Value, ValueView};
use vstd::prelude::*;

verus! {

/// The name under which a node is known.
pub type NodeName = String;

/// How a node's process is to be started.
#[derive(Debug, PartialEq, Eq)]
pub struct ShellStartCodeChainRequest {
    pub env: String,
    pub args: String,
}

pub struct ShellStartCodeChainRequestView {
    pub env: Seq<char>,
    pub args: Seq<char>,
}

impl View for ShellStartCodeChainRequest {
    type V = ShellStartCodeChainRequestView;

    open spec fn view(&self) -> ShellStartCodeChainRequestView {
        ShellStartCodeChainRequestView { env: self.env@, args: self.args@ }
    }
}

/// What a node's program is to be replaced with.
#[derive(Debug, PartialEq, Eq)]
pub enum UpdateCodeChainRequest {
    Git { commit_hash: String },
    Binary { binary_url: String, binary_checksum: String },
}

pub enum UpdateCodeChainRequestView {
    Git { commit_hash: Seq<char> },
    Binary { binary_url: Seq<char>, binary_checksum: Seq<char> },
}

impl View for UpdateCodeChainRequest {
    type V = UpdateCodeChainRequestView;

    open spec fn view(&self) -> UpdateCodeChainRequestView {
        match self {
            UpdateCodeChainRequest::Git { commit_hash } => UpdateCodeChainRequestView::Git {
                commit_hash: commit_hash@,
            },
            UpdateCodeChainRequest::Binary {
                binary_url,
                binary_checksum,
            } => UpdateCodeChainRequestView::Binary {
                binary_url: binary_url@,
                binary_checksum: binary_checksum@,
            },
        }
    }
}

/// The width of one point of a graph.
#[derive(Debug, PartialEq, Eq, Clone, Copy)]
pub enum GraphPeriod {
    Minutes5,
    Hour,
    Day,
}

/// The stretch of time that a graph covers, and how finely.
#[derive(Debug, PartialEq, Eq)]
pub struct GraphCommonArgs {
    pub from: String,
    pub to: String,
    pub period: GraphPeriod,
}

pub struct GraphCommonArgsView {
    pub from: Seq<char>,
    pub to: Seq<char>,
    pub period: GraphPeriod,
}

impl View for GraphCommonArgs {
    type V = GraphCommonArgsView;

    open spec fn view(&self) -> GraphCommonArgsView {
        GraphCommonArgsView { from: self.from@, to: self.to@, period: self.period }
    }
}

/// Which log lines are asked for.
#[derive(Debug, PartialEq, Eq)]
pub struct LogGetRequest {
    pub search: Option<String>,
    pub page: Option<i64>,
    pub item_per_page: Option<i64>,
}

pub struct LogGetRequestView {
    pub search: Option<Seq<char>>,
    pub page: Option<int>,
    pub item_per_page: Option<int>,
}

impl View for LogGetRequest {
    type V = LogGetRequestView;

    open spec fn view(&self) -> LogGetRequestView {
        LogGetRequestView {
            search: match self.search {
                Some(s) => Some(s@),
                None => None,
            },
            page: match self.page {
                Some(n) => Some(n as int),
                None => None,
            },
            item_per_page: match self.item_per_page {
                Some(n) => Some(n as int),
                None => None,
            },
        }
    }
}

/// The text held by the member called `name`, which has to be there.
pub open spec fn text_member(raw: ValueView, name: Seq<char>) -> Option<Seq<char>> {
    match raw.field(name) {
        Some(ValueView::Text(s)) => Some(s),
        _ => None,
    }
}

/// Reads a member that has to be there and has to be a text.
pub fn read_text(raw: &Value, name: &str) -> (r: Option<String>)
    ensures
        match r {
            Some(s) => text_member(raw@, name@) == Some(s@),
            None => text_member(raw@, name@) is None,
        },
{
    match raw.field(name) {
        Some(Value::Text(s)) => Some(s.clone()),
        _ => None,
    }
}

/// What an optional text called `name` holds in a record: a member that is
/// missing or `Null` stands for nothing. `Err` stands for a member of
/// another kind, and for a value that is no record.
pub open spec fn optional_text_member(raw: ValueView, name: Seq<char>) -> Result<
    Option<Seq<char>>,
    (),
> {
    if !(raw is Record) {
        Err(())
    } else {
        match raw.field(name) {
            None => Ok(None),
            Some(ValueView::Null) => Ok(None),
            Some(ValueView::Text(s)) => Ok(Some(s)),
            Some(_) => Err(()),
        }
    }
}

/// Reads a member that may be missing and otherwise has to be a text.
pub fn read_optional_text(raw: &Value, name: &str) -> (r: Result<Option<String>, ()>)
    ensures
        match r {
            Ok(Some(s)) => optional_text_member(raw@, name@) == Ok::<Option<Seq<char>>, ()>(
                Some(s@),
            ),
            Ok(None) => optional_text_member(raw@, name@) == Ok::<Option<Seq<char>>, ()>(None),
            Err(_) => optional_text_member(raw@, name@) is Err,
        },
{
    match raw {
        Value::Record(_) => {},
        _ => {
            return Err(());
        },
    }
    match raw.field(name) {
        None => Ok(None),
        Some(Value::Null) => Ok(None),
        Some(Value::Text(s)) => Ok(Some(s.clone())),
        Some(_) => Err(()),
    }
}

/// As `optional_text_member`, for a whole number.
pub open spec fn optional_int_member(raw: ValueView, name: Seq<char>) -> Result<Option<int>, ()> {
    if !(raw is Record) {
        Err(())
    } else {
        match raw.field(name) {
            None => Ok(None),
            Some(ValueView::Null) => Ok(None),
            Some(ValueView::Int(n)) => Ok(Some(n)),
            Some(_) => Err(()),
        }
    }
}

/// Reads a member that may be missing and otherwise has to be a whole number.
pub fn read_optional_int(raw: &Value, name: &str) -> (r: Result<Option<i64>, ()>)
    ensures
        match r {
            Ok(Some(n)) => optional_int_member(raw@, name@) == Ok::<Option<int>, ()>(
                Some(n as int),
            ),
            Ok(None) => optional_int_member(raw@, name@) == Ok::<Option<int>, ()>(None),
            Err(_) => optional_int_member(raw@, name@) is Err,
        },
{
    match raw {
        Value::Record(_) => {},
        _ => {
            return Err(());
        },
    }
    match raw.field(name) {
        None => Ok(None),
        Some(Value::Null) => Ok(None),
        Some(Value::Int(n)) => Ok(Some(*n)),
        Some(_) => Err(()),
    }
}

impl Decode for ShellStartCodeChainRequest {
    /// A record with the texts `env` and `args`.
    open spec fn decoded(raw: ValueView) -> Option<ShellStartCodeChainRequestView> {
        match (text_member(raw, "env"@), text_member(raw, "args"@)) {
            (Some(env), Some(args)) => Some(ShellStartCodeChainRequestView { env, args }),
            _ => None,
        }
    }

    fn decode(raw: &Value) -> (r: Option<Self>) {
        let env = match read_text(raw, "env") {
            Some(s) => s,
            None => {
                return None;
            },
        };
        match read_text(raw, "args") {
            Some(args) => Some(ShellStartCodeChainRequest { env, args }),
            None => None,
        }
    }
}

impl Decode for UpdateCodeChainRequest {
    /// A record whose text `type` is `git`, with the text `commitHash`, or
    /// `binary`, with the texts `binaryURL` and `binaryChecksum`.
    open spec fn decoded(raw: ValueView) -> Option<UpdateCodeChainRequestView> {
        match text_member(raw, "type"@) {
            Some(kind) => if kind == "git"@ {
                match text_member(raw, "commitHash"@) {
                    Some(commit_hash) => Some(UpdateCodeChainRequestView::Git { commit_hash }),
                    None => None,
                }
            } else if kind == "binary"@ {
                match (text_member(raw, "binaryURL"@), text_member(raw, "binaryChecksum"@)) {
                    (Some(binary_url), Some(binary_checksum)) => Some(
                        UpdateCodeChainRequestView::Binary { binary_url, binary_checksum },
                    ),
                    _ => None,
                }
            } else {
                None
            },
            None => None,
        }
    }

    fn decode(raw: &Value) -> (r: Option<Self>) {
        let kind = match read_text(raw, "type") {
            Some(s) => s,
            None => {
                return None;
            },
        };
        if kind == "git".to_string() {
            match read_text(raw, "commitHash") {
                Some(commit_hash) => Some(UpdateCodeChainRequest::Git { commit_hash }),
                None => None,
            }
        } else if kind == "binary".to_string() {
            let binary_url = match read_text(raw, "binaryURL") {
                Some(s) => s,
                None => {
                    return None;
                },
            };
            match read_text(raw, "binaryChecksum") {
                Some(binary_checksum) => Some(
                    UpdateCodeChainRequest::Binary { binary_url, binary_checksum },
                ),
                None => None,
            }
        } else {
            None
        }
    }
}

/// The period that a text names.
pub open spec fn period_named(name: Seq<char>) -> Option<GraphPeriod> {
    if name == "minutes5"@ {
        Some(GraphPeriod::Minutes5)
    } else if name == "hour"@ {
        Some(GraphPeriod::Hour)
    } else if name == "day"@ {
        Some(GraphPeriod::Day)
    } else {
        None
    }
}

/// Reads the name of a period.
pub fn read_period(name: &String) -> (r: Option<GraphPeriod>)
    ensures
        r == period_named(name@),
{
    if *name == "minutes5".to_string() {
        Some(GraphPeriod::Minutes5)
    } else if *name == "hour".to_string() {
        Some(GraphPeriod::Hour)
    } else if *name == "day".to_string() {
        Some(GraphPeriod::Day)
    } else {
        None
    }
}

impl Decode for GraphCommonArgs {
    /// A record with the texts `from`, `to` and `period`, the last one of
    /// `minutes5`, `hour` and `day`.
    open spec fn decoded(raw: ValueView) -> Option<GraphCommonArgsView> {
        match (text_member(raw, "from"@), text_member(raw, "to"@), text_member(raw, "period"@)) {
            (Some(from), Some(to), Some(name)) => match period_named(name) {
                Some(period) => Some(GraphCommonArgsView { from, to, period }),
                None => None,
            },
            _ => None,
        }
    }

    fn decode(raw: &Value) -> (r: Option<Self>) {
        let from = match read_text(raw, "from") {
            Some(s) => s,
            None => {
                return None;
            },
        };
        let to = match read_text(raw, "to") {
            Some(s) => s,
            None => {
                return None;
            },
        };
        let name = match read_text(raw, "period") {
            Some(s) => s,
            None => {
                return None;
            },
        };
        match read_period(&name) {
            Some(period) => Some(GraphCommonArgs { from, to, period }),
            None => None,
        }
    }
}

impl Decode for LogGetRequest {
    /// A record in which `search`, if it is there, is a text, and `page` and
    /// `itemPerPage`, if they are there, are whole numbers.
    open spec fn decoded(raw: ValueView) -> Option<LogGetRequestView> {
        match (
            optional_text_member(raw, "search"@),
            optional_int_member(raw, "page"@),
            optional_int_member(raw, "itemPerPage"@),
        ) {
            (Ok(search), Ok(page), Ok(item_per_page)) => Some(
                LogGetRequestView { search, page, item_per_page },
            ),
            _ => None,
        }
    }

    fn decode(raw: &Value) -> (r: Option<Self>) {
        let search = match read_optional_text(raw, "search") {
            Ok(s) => s,
            Err(_) => {
                return None;
            },
        };
        let page = match read_optional_int(raw, "page") {
            Ok(n) => n,
            Err(_) => {
                return None;
            },
        };
        match read_optional_int(raw, "itemPerPage") {
            Ok(item_per_page) => Some(LogGetRequest { search, page, item_per_page }),
            Err(_) => None,
        }
    }
}

} // verus!
