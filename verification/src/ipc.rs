//! How the programs of the suite talk to the daemon that owns the runtime: one
//! object to a line, over a socket in the user's home.

use crate::host::Host;
use crate::json::{decode, is_line, line_of, object, Item, Object, Value};
use crate::step::{failure_of, yes, Act, Action, Plan, Reply, Step};
use crate::text::{cat2, trim, trimmed, views};
use vstd::prelude::*;

verus! {

/// Where the suite keeps its state: a directory in the user's home, or in the
/// working directory where there is no home.
pub open spec fn state_path(home: Option<&str>) -> Seq<char> {
    match home {
        Some(h) => Host::Linux.path(h@, ".androlon"@),
        None => Host::Linux.path("."@, ".androlon"@),
    }
}

/// Where the suite keeps its state, from what the environment holds under
/// `HOME`.
pub fn state_dir(home: Option<&str>) -> (r: String)
    ensures
        r@ == state_path(home),
{
    match home {
        Some(h) => Host::Linux.join(h, ".androlon"),
        None => Host::Linux.join(".", ".androlon"),
    }
}

/// The daemon's socket.
pub fn socket_path(home: Option<&str>) -> (r: String)
    ensures
        r@ == Host::Linux.path(state_path(home), "runtimed.sock"@),
{
    Host::Linux.join(state_dir(home).as_str(), "runtimed.sock")
}

/// `m` with the members of `args` put in, one after the other.
pub open spec fn with_args(m: Map<Seq<char>, Item>, args: Seq<(String, Value)>) -> Map<
    Seq<char>,
    Item,
>
    decreases args.len(),
{
    if args.len() == 0 {
        m
    } else {
        with_args(m, args.drop_last()).insert(args.last().0@, args.last().1@)
    }
}

/// What a request holds: its verb, and its arguments.
pub open spec fn request_map(verb: Seq<char>, args: Seq<(String, Value)>) -> Map<Seq<char>, Item> {
    with_args(Map::<Seq<char>, Item>::empty().insert("req"@, Item::Str(verb)), args)
}

/// Puts the members of `args` into `obj`, one after the other.
pub(crate) fn put_all(obj: &mut Object, args: &Vec<(String, Value)>)
    requires
        old(obj).wf(),
    ensures
        final(obj).wf(),
        final(obj)@ == with_args(old(obj)@, args@),
{
    let mut i: usize = 0;
    assert(args@.take(0) =~= seq![]);
    while i < args.len()
        invariant
            i <= args.len(),
            obj.wf(),
            obj@ == with_args(old(obj)@, args@.take(i as int)),
        decreases args.len() - i,
    {
        assert(args@.take(i + 1).drop_last() =~= args@.take(i as int));
        assert(args@.take(i + 1).last() == args@[i as int]);
        obj.insert(args[i].0.clone(), args[i].1.copy());
        i = i + 1;
    }
    assert(args@.take(args@.len() as int) =~= args@);
}

/// The line of a request.
pub fn request_line(verb: &str, args: &Vec<(String, Value)>) -> (r: String)
    ensures
        is_line(r@, request_map(verb@, args@)),
{
    let mut obj = Object::new();
    obj.insert("req".to_owned(), Value::Str(verb.to_owned()));
    put_all(&mut obj, args);
    line_of(&obj)
}

proof fn args_fit(m: Map<Seq<char>, Item>, args: Seq<(String, Value)>)
    requires
        forall|k: Seq<char>| #[trigger] m.dom().contains(k) ==> crate::json::fits(m[k]),
    ensures
        forall|k: Seq<char>| #[trigger]
            with_args(m, args).dom().contains(k) ==> crate::json::fits(with_args(m, args)[k]),
    decreases args.len(),
{
    if args.len() > 0 {
        let front = with_args(m, args.drop_last());
        args_fit(m, args.drop_last());
        value_fits(args.last().1);
        assert forall|k: Seq<char>| #[trigger]
            with_args(m, args).dom().contains(k) implies crate::json::fits(
            with_args(m, args)[k],
        ) by {
            if k != args.last().0@ {
                assert(front.dom().contains(k));
            }
        }
    }
}

proof fn value_fits(v: Value)
    ensures
        crate::json::fits(v@),
{
}

/// The daemon reads of a request's line what the request holds.
pub proof fn request_reads_back(line: Seq<char>, verb: Seq<char>, args: Seq<(String, Value)>)
    requires
        is_line(line, request_map(verb, args)),
    ensures
        object(trim(line)) == Some(request_map(verb, args)),
{
    args_fit(Map::<Seq<char>, Item>::empty().insert("req"@, Item::Str(verb)), args);
    crate::json::is_line_reads_back(line, request_map(verb, args));
}

/// What the daemon said.
#[derive(Debug)]
pub struct Response {
    obj: Object,
}

impl View for Response {
    type V = Map<Seq<char>, Item>;

    closed spec fn view(&self) -> Map<Seq<char>, Item> {
        self.obj@
    }
}

/// The text under the name `key`.
pub open spec fn text_under(m: Map<Seq<char>, Item>, key: Seq<char>) -> Option<Seq<char>> {
    if m.dom().contains(key) {
        match m[key] {
            Item::Str(s) => Some(s),
            _ => None,
        }
    } else {
        None
    }
}

impl Response {
    pub closed spec fn wf(&self) -> bool {
        self.obj.wf()
    }

    /// No error is there.
    pub fn ok(&self) -> (r: bool)
        requires
            self.wf(),
        ensures
            r == !self@.dom().contains("err"@),
    {
        !self.obj.contains_key("err")
    }

    /// The text of the error.
    pub fn err(&self) -> (r: Option<&str>)
        requires
            self.wf(),
        ensures
            match r {
                Some(s) => text_under(self@, "err"@) == Some(s@),
                None => text_under(self@, "err"@) is None,
            },
    {
        self.str("err")
    }

    /// The text under a name.
    pub fn str(&self, key: &str) -> (r: Option<&str>)
        requires
            self.wf(),
        ensures
            match r {
                Some(s) => text_under(self@, key@) == Some(s@),
                None => text_under(self@, key@) is None,
            },
    {
        match self.obj.get(key) {
            Some(Value::Str(s)) => Some(s.as_str()),
            _ => None,
        }
    }

    /// The truth value under a name.
    pub fn bool(&self, key: &str) -> (r: Option<bool>)
        requires
            self.wf(),
        ensures
            match r {
                Some(b) => self@.dom().contains(key@) && self@[key@] == Item::Bool(b),
                None => !(self@.dom().contains(key@) && self@[key@] is Bool),
            },
    {
        match self.obj.get(key) {
            Some(Value::Bool(b)) => Some(*b),
            _ => None,
        }
    }

    /// The integer under a name.
    pub fn integer(&self, key: &str) -> (r: Option<i64>)
        requires
            self.wf(),
        ensures
            match r {
                Some(n) => self@.dom().contains(key@) && self@[key@] == Item::Int(n as int),
                None => !(self@.dom().contains(key@) && self@[key@] is Int),
            },
    {
        match self.obj.get(key) {
            Some(Value::Int(n)) => Some(*n),
            _ => None,
        }
    }

    /// The list under a name.
    pub fn list(&self, key: &str) -> (r: Option<&Vec<String>>)
        requires
            self.wf(),
        ensures
            match r {
                Some(l) => self@.dom().contains(key@) && self@[key@] == Item::List(views(l@)),
                None => !(self@.dom().contains(key@) && self@[key@] is List),
            },
    {
        match self.obj.get(key) {
            Some(Value::List(l)) => Some(l),
            _ => None,
        }
    }
}

/// Reads a line of the daemon: what it holds, or what is said of a line that
/// holds no object.
pub fn read_reply(reply: &str) -> (r: Result<Response, String>)
    ensures
        match r {
            Ok(response) => response.wf() && object(trim(reply@)) == Some(response@),
            Err(e) => object(trim(reply@)) is None && e@ == "bad reply: "@ + reply@,
        },
{
    match decode(trimmed(reply).as_str()) {
        Some(obj) => Ok(Response { obj }),
        None => Err(cat2("bad reply: ", reply)),
    }
}

/// The daemon's program: the one that the environment names under
/// `ANDROLON_RUNTIMED`, or the one beside this program, whose path is `exe`
/// where the system could tell it.
pub fn daemon_path(named: Option<&str>, exe: Result<String, String>) -> (r: Result<String, String>)
    ensures
        match named {
            Some(p) => r matches Ok(path) && path@ == p@,
            None => match exe {
                Ok(e) => r matches Ok(path) && path@ == Host::Linux.sibling(e@, "androlon-runtimed"@),
                Err(e) => r matches Err(text) && text@ == e@,
            },
        },
{
    match named {
        Some(p) => Ok(p.to_owned()),
        None => match exe {
            Ok(e) => Ok(Host::Linux.with_file_name(e.as_str(), "androlon-runtimed")),
            Err(e) => Err(e),
        },
    }
}

/// Why there is no connection to the daemon.
#[derive(Debug)]
pub enum ConnectError {
    NotFound(String),
    TimedOut(String),
    /// What the system said.
    Io(String),
}

/// What a `ConnectError` stands for.
pub enum ConnectProblem {
    NotFound(Seq<char>),
    TimedOut(Seq<char>),
    Io(Seq<char>),
}

impl View for ConnectError {
    type V = ConnectProblem;

    open spec fn view(&self) -> ConnectProblem {
        match self {
            ConnectError::NotFound(s) => ConnectProblem::NotFound(s@),
            ConnectError::TimedOut(s) => ConnectProblem::TimedOut(s@),
            ConnectError::Io(s) => ConnectProblem::Io(s@),
        }
    }
}

/// How often a connection to a daemon that was just started is tried.
pub const CONNECT_TRIES: u32 = 50;

/// How a daemon that was just started is waited for, of which `n` tries have
/// failed.
pub open spec fn wait_plan(socket: Seq<char>, n: int, replies: Seq<Reply>) -> Plan<
    Result<(), ConnectProblem>,
>
    decreases replies.len(),
{
    if n >= CONNECT_TRIES {
        Plan::Done(Err(ConnectProblem::TimedOut("androlon-runtimed did not come up"@)))
    } else if replies.len() == 0 {
        Plan::Do(Act::Wait(100))
    } else if replies.len() == 1 {
        Plan::Do(Act::Connect(socket))
    } else if failure_of(replies[1]) is None {
        Plan::Done(Ok(()))
    } else {
        wait_plan(socket, n + 1, replies.skip(2))
    }
}

/// How a connection is made: where the socket is dead, its file is removed, and
/// the daemon is started and waited for.
pub open spec fn connect_plan(
    socket: Seq<char>,
    daemon: Result<String, String>,
    replies: Seq<Reply>,
) -> Plan<Result<(), ConnectProblem>> {
    if replies.len() == 0 {
        Plan::Do(Act::Connect(socket))
    } else if failure_of(replies[0]) is None {
        Plan::Done(Ok(()))
    } else if replies.len() == 1 {
        Plan::Do(Act::Remove(socket))
    } else {
        match daemon {
            Err(e) => Plan::Done(Err(ConnectProblem::Io(e@))),
            Ok(path) => if replies.len() == 2 {
                Plan::Do(Act::Exists(path@))
            } else if !yes(replies[2]) {
                Plan::Done(
                    Err(ConnectProblem::NotFound("androlon-runtimed not found at "@ + path@)),
                )
            } else if replies.len() == 3 {
                Plan::Do(Act::SpawnQuiet(path@))
            } else if failure_of(replies[3]) is Some {
                Plan::Done(Err(ConnectProblem::Io(failure_of(replies[3])->0)))
            } else {
                wait_plan(socket, 0, replies.skip(4))
            },
        }
    }
}

/// `s` is what `p` says.
pub open spec fn is_connect(
    s: Step<Result<(), ConnectError>>,
    p: Plan<Result<(), ConnectProblem>>,
) -> bool {
    match (s, p) {
        (Step::Do(a), Plan::Do(b)) => a@ == b,
        (Step::Done(Ok(_)), Plan::Done(Ok(_))) => true,
        (Step::Done(Err(e)), Plan::Done(Err(f))) => e@ == f,
        _ => false,
    }
}

/// The next step of connecting to the daemon.
pub fn connect_or_spawn(socket: &str, daemon: &Result<String, String>, replies: &Vec<Reply>) -> (s:
    Step<Result<(), ConnectError>>)
    ensures
        is_connect(s, connect_plan(socket@, *daemon, replies@)),
{
    if replies.len() == 0 {
        return Step::Do(Action::Connect(socket.to_owned()));
    }
    if replies[0].failure().is_none() {
        return Step::Done(Ok(()));
    }
    if replies.len() == 1 {
        return Step::Do(Action::Remove(socket.to_owned()));
    }
    let path = match daemon {
        Err(e) => {
            return Step::Done(Err(ConnectError::Io(e.clone())));
        },
        Ok(path) => path,
    };
    if replies.len() == 2 {
        return Step::Do(Action::Exists(path.clone()));
    }
    if !replies[2].is_yes() {
        return Step::Done(
            Err(ConnectError::NotFound(cat2("androlon-runtimed not found at ", path.as_str()))),
        );
    }
    if replies.len() == 3 {
        return Step::Do(Action::SpawnQuiet(path.clone()));
    }
    if let Some(e) = replies[3].failure() {
        return Step::Done(Err(ConnectError::Io(e)));
    }
    let mut at: usize = 4;
    let mut n: u32 = 0;
    loop
        invariant
            4 <= at <= replies.len(),
            n <= CONNECT_TRIES,
            connect_plan(socket@, *daemon, replies@) == wait_plan(
                socket@,
                n as int,
                replies@.skip(at as int),
            ),
        decreases replies.len() - at,
    {
        if n >= CONNECT_TRIES {
            return Step::Done(
                Err(ConnectError::TimedOut("androlon-runtimed did not come up".to_owned())),
            );
        }
        let left: usize = replies.len() - at;
        if left == 0 {
            return Step::Do(Action::Wait(100));
        }
        if left == 1 {
            return Step::Do(Action::Connect(socket.to_owned()));
        }
        if replies[at + 1].failure().is_none() {
            return Step::Done(Ok(()));
        }
        assert(replies@.skip(at as int).skip(2) =~= replies@.skip(at + 2));
        at = at + 2;
        n = n + 1;
    }
}

/// A connection is there exactly where some try of it went well; without one the
/// error says why. A socket that answers is used as it is. One that does not is
/// taken away before the daemon is started, and the daemon is started once and
/// only where its program is there.
pub proof fn a_daemon_is_started_where_none_answers(
    socket: Seq<char>,
    daemon: Result<String, String>,
    replies: Seq<Reply>,
)
    ensures
        ({
            let p = connect_plan(socket, daemon, replies);
            let n = replies.len();
            let dead = n > 0 && !crate::step::was_done(replies[0]);
            &&& n == 0 ==> (p matches Plan::Do(a) && a == Act::Connect(socket))
            &&& n > 0 && crate::step::was_done(replies[0]) ==> (p matches Plan::Done(Ok(_)))
            &&& n == 1 && dead ==> (p matches Plan::Do(a) && a == Act::Remove(socket))
            &&& n >= 2 && dead ==> (daemon matches Err(e) ==> p == Plan::Done(
                Err::<(), ConnectProblem>(ConnectProblem::Io(e@)),
            ))
            &&& daemon matches Ok(path) ==> {
                &&& n == 2 && dead ==> (p matches Plan::Do(a) && a == Act::Exists(path@))
                &&& n == 3 && dead && replies[2] == Reply::Answer(true) ==> (p matches Plan::Do(a)
                    && a == Act::SpawnQuiet(path@))
                &&& n >= 3 && dead && replies[2] == Reply::Answer(false) ==> p == Plan::Done(
                    Err::<(), ConnectProblem>(
                        ConnectProblem::NotFound("androlon-runtimed not found at "@ + path@),
                    ),
                )
                &&& n >= 4 && dead && replies[2] == Reply::Answer(true) ==> (replies[3] matches Reply::Did(
                    Err(e),
                ) ==> p == Plan::Done(Err::<(), ConnectProblem>(ConnectProblem::Io(e@))))
                &&& n >= 4 && dead && replies[2] == Reply::Answer(true) && crate::step::was_done(
                    replies[3],
                ) ==> p == wait_plan(socket, 0, replies.skip(4))
            }
        }),
{
}

/// A daemon that was started is tried up to fifty times, a tenth of a second
/// apart: the connection is there with the first try that goes well, and behind
/// fifty that did not it is given up.
pub proof fn a_daemon_is_tried_fifty_times(
    socket: Seq<char>,
    n: int,
    replies: Seq<Reply>,
    k: int,
)
    requires
        0 <= n <= n + k <= 50,
        replies.len() >= 2 * k,
        forall|i: int| 0 <= i < k ==> !crate::step::was_done(#[trigger] replies[2 * i + 1]),
    ensures
        n + k == 50 ==> wait_plan(socket, n, replies) == Plan::Done(
            Err::<(), ConnectProblem>(
                ConnectProblem::TimedOut("androlon-runtimed did not come up"@),
            ),
        ),
        n + k < 50 && replies.len() == 2 * k ==> (wait_plan(socket, n, replies) matches Plan::Do(a)
            && a == Act::Wait(100)),
        n + k < 50 && replies.len() == 2 * k + 1 ==> (wait_plan(socket, n, replies) matches Plan::Do(
            a,
        ) && a == Act::Connect(socket)),
        n + k < 50 && replies.len() > 2 * k + 1 && crate::step::was_done(replies[2 * k + 1])
            ==> (wait_plan(socket, n, replies) matches Plan::Done(Ok(_))),
    decreases k,
{
    if k > 0 {
        let rest = replies.skip(2);
        assert(!crate::step::was_done(replies[2 * 0int + 1]));
        assert forall|i: int| 0 <= i < k - 1 implies !crate::step::was_done(
            #[trigger] rest[2 * i + 1],
        ) by {
            assert(!crate::step::was_done(replies[2 * (i + 1) + 1]));
        }
        assert(replies.len() > 2 * k + 1 ==> rest[2 * (k - 1) + 1] == replies[2 * k + 1]);
        a_daemon_is_tried_fifty_times(socket, n + 1, rest, k - 1);
    }
}

} // verus!
