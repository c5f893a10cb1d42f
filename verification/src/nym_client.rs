//! A nym client: the port that it listens on, the commands that set it up and start it, and the
//! address that it is reached at.
use crate::service::setup::ws_uri;
use crate::text::{contains, push_decimal};
use rand::Rng;
use vstd::prelude::*;
use vstd::string::StringExecFns;

verus! {

/// The host that clients listen on.
pub const LOCALHOST: &'static str = "0.0.0.0";

/// The first of the ports that clients listen on.
pub const FIRST_PORT: u16 = 15000;

/// The port behind the last of those that clients listen on.
pub const END_PORT: u16 = 25000;

/// What a client prints once it is connected.
pub const READY_TEXT: &'static str = "The address of this client is";

/// Calls `rand::Rng::gen_range` on `rand::thread_rng()` with the range from `low` up to and
/// without `high`. It panics on an empty range, and gives a number of the range otherwise. Which
/// one is left to chance, so nothing more is stated. It also panics where the operating system has
/// no randomness to seed the generator with, which does not depend on the arguments.
#[verifier::external_body]
fn gen_range(low: u16, high: u16) -> (drawn: u16)
    requires
        low < high,
    ensures
        low <= drawn < high,
{
    rand::thread_rng().gen_range(low..high)
}

/// A port that may be picked if it can be bound.
#[derive(Debug)]
pub struct PortCandidate {
    port: u16,
}

/// What is to be done next about a port for a client.
#[derive(Debug)]
pub enum PortStep {
    /// To find out whether the candidate can be bound.
    Try(PortCandidate),
    /// The port that was picked.
    Picked(u16),
}

impl View for PortCandidate {
    type V = u16;

    closed spec fn view(&self) -> u16 {
        self.port
    }
}

impl PortCandidate {
    #[verifier::type_invariant]
    spec fn is_in_range(self) -> bool {
        FIRST_PORT <= self.port < END_PORT
    }

    /// The candidate for a port that was drawn.
    pub fn new(port: u16) -> (candidate: Self)
        requires
            FIRST_PORT <= port < END_PORT,
        ensures
            candidate@ == port,
    {
        PortCandidate { port }
    }

    /// The port to be tried.
    pub fn port(&self) -> (port: u16)
        ensures
            port == self@,
            FIRST_PORT <= port < END_PORT,
    {
        proof {
            use_type_invariant(self);
        }
        self.port
    }

    /// The address to be bound to find out whether the port is free.
    pub fn address(&self) -> (address: String)
        ensures
            address@ == LOCALHOST@ + ":"@ + crate::text::decimal(self@ as nat),
    {
        let mut address = LOCALHOST.to_owned();
        address.append(":");
        push_decimal(&mut address, self.port as u64);
        address
    }

    /// Takes whether the port could be bound, and the port that was drawn next. A port that could
    /// be bound is picked, else the one that was drawn is to be tried.
    pub fn settle(self, bound: bool, drawn: u16) -> (step: PortStep)
        requires
            FIRST_PORT <= drawn < END_PORT,
        ensures
            bound ==> step == PortStep::Picked(self@) && FIRST_PORT <= self@ < END_PORT,
            !bound ==> step is Try && step->Try_0@ == drawn,
    {
        if bound {
            PortStep::Picked(self.port())
        } else {
            PortStep::Try(PortCandidate::new(drawn))
        }
    }

    /// Takes whether the port could be bound. One that could be is picked, else another one is
    /// drawn.
    pub fn answer(self, bound: bool) -> (step: PortStep)
        ensures
            bound ==> step == PortStep::Picked(self@) && FIRST_PORT <= self@ < END_PORT,
            !bound ==> step is Try && FIRST_PORT <= step->Try_0@ < END_PORT,
    {
        let drawn: u16 = if bound {
            self.port()
        } else {
            gen_range(FIRST_PORT, END_PORT)
        };
        self.settle(bound, drawn)
    }
}

/// Starts to pick a port at random: gives the first one to be tried.
pub fn pick_port() -> (candidate: PortCandidate)
    ensures
        FIRST_PORT <= candidate@ < END_PORT,
{
    let drawn: u16 = gen_range(FIRST_PORT, END_PORT);
    PortCandidate::new(drawn)
}

/// A nym client that listens on a port. The port is also its name.
#[derive(Clone, Copy, Debug, PartialEq, Eq, Structural)]
pub struct NymClient {
    pub port: u16,
}

/// The texts that the strings hold.
pub open spec fn texts(strings: Seq<String>) -> Seq<Seq<char>> {
    strings.map_values(|s: String| s@)
}

impl NymClient {
    /// The client on the given port.
    pub fn new(port: u16) -> (client: Self)
        ensures
            client == (NymClient { port }),
    {
        NymClient { port }
    }

    /// Get the websocket address of the client.
    pub fn ws(&self) -> (address: String)
        ensures
            address@ == crate::service::setup::ws_address(LOCALHOST@, self.port),
    {
        ws_uri(LOCALHOST, self.port)
    }

    /// The name of the client.
    pub fn id(&self) -> (id: String)
        ensures
            id@ == crate::text::decimal(self.port as nat),
    {
        let mut id = String::new();
        push_decimal(&mut id, self.port as u64);
        id
    }

    /// The arguments of the command that sets the client up.
    pub fn init_args(&self) -> (args: Vec<String>)
        ensures
            texts(args@) == seq!["init"@, "--id"@, crate::text::decimal(self.port as nat)],
    {
        let mut args: Vec<String> = Vec::new();
        args.push("init".to_owned());
        args.push("--id".to_owned());
        args.push(self.id());
        args
    }

    /// The arguments of the command that starts the client.
    pub fn run_args(&self) -> (args: Vec<String>)
        ensures
            texts(args@) == seq![
                "run"@,
                "--id"@,
                crate::text::decimal(self.port as nat),
                "--port"@,
                crate::text::decimal(self.port as nat),
            ],
    {
        let mut args: Vec<String> = Vec::new();
        args.push("run".to_owned());
        args.push("--id".to_owned());
        args.push(self.id());
        args.push("--port".to_owned());
        args.push(self.id());
        args
    }

    /// Whether a line that the client printed says that it is connected.
    pub fn is_ready_line(line: &str) -> (ready: bool)
        ensures
            ready == crate::text::has_run(line@, READY_TEXT@),
    {
        contains(line, READY_TEXT)
    }
}

/// Clients on different ports are reached at different addresses.
pub proof fn clients_have_unique_addresses(a: NymClient, b: NymClient)
    requires
        crate::service::setup::ws_address(LOCALHOST@, a.port)
            == crate::service::setup::ws_address(LOCALHOST@, b.port),
    ensures
        a == b,
{
    let head = "ws://"@ + LOCALHOST@ + ":"@;
    let left = crate::text::decimal(a.port as nat);
    let right = crate::text::decimal(b.port as nat);
    assert(left =~= (head + left).skip(head.len() as int));
    assert(right =~= (head + right).skip(head.len() as int));
    crate::text::decimal_is_injective(a.port as nat, b.port as nat);
}

/// The texts of a list of strings are what the strings hold, one by one.
pub proof fn texts_stand_for_each_string(strings: Seq<String>, i: int)
    ensures
        texts(strings).len() == strings.len(),
        0 <= i < strings.len() ==> texts(strings)[i] == strings[i]@,
{
}

/// The ports that clients listen on are those from 15000 to 24999, each of them.
pub proof fn clients_listen_on_ten_thousand_ports(port: u16)
    ensures
        FIRST_PORT <= port < END_PORT <==> 15000 <= port <= 24999,
        END_PORT - FIRST_PORT == 10000,
{
}

/// A line says that a client is connected if and only if it tells the address of the client, whatever
/// stands before and after.
pub proof fn ready_lines_tell_the_address(line: Seq<char>)
    ensures
        crate::text::has_run(line, READY_TEXT@) <==> exists|before: Seq<char>, after: Seq<char>|
            #[trigger]
            (before + "The address of this client is"@ + after) == line,
{
    crate::text::runs_stand_between_two_texts(line, "The address of this client is"@);
}

} // verus!
