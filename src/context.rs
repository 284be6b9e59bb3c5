use vstd::prelude::*;

verus! {

/// Where a command runs, and as whom. Having no context means running the
/// command directly.
#[derive(Debug, PartialEq, Clone)]
pub enum Context {
    /// Run on this machine as `user`, through a non-interactive `sudo`.
    Local { user: String },
    /// Run on `host` through `ssh`, with the ssh configuration file `config`
    /// where one is given.
    Remote { host: String, config: Option<String> },
}

/// The mathematical value of a [`Context`].
pub enum ContextModel {
    Local { user: Seq<char> },
    Remote { host: Seq<char>, config: Option<Seq<char>> },
}

impl View for Context {
    type V = ContextModel;

    open spec fn view(&self) -> ContextModel {
        match self {
            Context::Local { user } => ContextModel::Local { user: user@ },
            Context::Remote { host, config } => ContextModel::Remote {
                host: host@,
                config: match config {
                    Some(c) => Some(c@),
                    None => None,
                },
            },
        }
    }
}

/// The model of an optional context.
pub open spec fn context_model(context: Option<&Context>) -> Option<ContextModel> {
    match context {
        Some(c) => Some(c@),
        None => None,
    }
}

/// A concrete program with its ordered arguments, ready to be spawned.
pub struct Invocation {
    pub program: String,
    pub args: Vec<String>,
}

impl View for Invocation {
    type V = (Seq<char>, Seq<Seq<char>>);

    open spec fn view(&self) -> (Seq<char>, Seq<Seq<char>>) {
        (self.program@, self.args.deep_view())
    }
}

pub open spec fn sudo_program() -> Seq<char> {
    seq!['s', 'u', 'd', 'o']
}

/// `sudo -n -u`: never prompt, and run as the user that follows.
pub open spec fn sudo_user_flag() -> Seq<char> {
    seq!['-', 'n', 'u']
}

/// Ends the options of the program in front of the command.
pub open spec fn end_of_options() -> Seq<char> {
    seq!['-', '-']
}

pub open spec fn ssh_program() -> Seq<char> {
    seq!['s', 's', 'h']
}

/// `ssh -F`: read the configuration from the file that follows.
pub open spec fn ssh_config_flag() -> Seq<char> {
    seq!['-', 'F']
}

/// The program and arguments that run `command` with `args` in `context`.
///
/// As another user: `sudo -nu <user> -- <command> <args...>`. The user is
/// one argument of its own, never parsed by a shell.
/// On a remote host: `ssh [-F <config>] <host> <command> <args...>`.
pub open spec fn invocation(
    command: Seq<char>,
    args: Seq<Seq<char>>,
    context: Option<ContextModel>,
) -> (Seq<char>, Seq<Seq<char>>) {
    match context {
        None => (command, args),
        Some(ContextModel::Local { user }) => (
            sudo_program(),
            seq![sudo_user_flag(), user, end_of_options(), command] + args,
        ),
        Some(ContextModel::Remote { host, config }) => (
            ssh_program(),
            match config {
                Some(c) => seq![ssh_config_flag(), c],
                None => Seq::<Seq<char>>::empty(),
            } + seq![host, command] + args,
        ),
    }
}

/// Appends `s` to `out`.
fn push_text(out: &mut Vec<String>, s: String)
    ensures
        final(out).deep_view() == old(out).deep_view().push(s@),
{
    out.push(s);
    assert(out.deep_view() =~= old(out).deep_view().push(s@));
}

/// Appends an owned copy of each of `items` to `out`, in order.
fn push_all(out: &mut Vec<String>, items: &[&str])
    ensures
        final(out).deep_view() == old(out).deep_view() + items.deep_view(),
{
    let ghost start = out.deep_view();
    let mut i: usize = 0;
    while i < items.len()
        invariant
            i <= items.len(),
            out.deep_view() == start + items.deep_view().take(i as int),
        decreases items.len() - i,
    {
        push_text(out, items[i].to_owned());
        i = i + 1;
        assert(items.deep_view().take(i as int) =~= items.deep_view().take(
            (i - 1) as int,
        ).push(items[i - 1]@));
    }
    assert(items.deep_view().take(i as int) =~= items.deep_view());
}

/// Resolves `command` with `args` in `context` into the program and the
/// arguments to spawn. Nothing is dropped: every argument, the user, the host
/// and the configuration file each appear as one argument of their own.
pub fn resolve(command: &str, args: &[&str], context: Option<&Context>) -> (r: Invocation)
    ensures
        r@ == invocation(command@, args.deep_view(), context_model(context)),
{
    let mut out: Vec<String> = Vec::new();
    assert(out.deep_view() =~= Seq::<Seq<char>>::empty());
    let program = match context {
        None => command.to_owned(),
        Some(Context::Local { user }) => {
            proof {
                reveal_strlit("sudo");
                reveal_strlit("-nu");
                reveal_strlit("--");
                assert("-nu"@ =~= sudo_user_flag());
                assert("--"@ =~= end_of_options());
                assert("sudo"@ =~= sudo_program());
            }
            push_text(&mut out, "-nu".to_owned());
            push_text(&mut out, user.clone());
            push_text(&mut out, "--".to_owned());
            push_text(&mut out, command.to_owned());
            assert(out.deep_view() =~= seq![sudo_user_flag(), user@, end_of_options(), command@]);
            "sudo".to_owned()
        },
        Some(Context::Remote { host, config }) => {
            proof {
                reveal_strlit("ssh");
                reveal_strlit("-F");
                assert("-F"@ =~= ssh_config_flag());
                assert("ssh"@ =~= ssh_program());
            }
            match config {
                Some(c) => {
                    push_text(&mut out, "-F".to_owned());
                    push_text(&mut out, c.clone());
                },
                None => {},
            }
            push_text(&mut out, host.clone());
            push_text(&mut out, command.to_owned());
            assert(out.deep_view() =~= match config {
                Some(c) => seq![ssh_config_flag(), c@],
                None => Seq::<Seq<char>>::empty(),
            } + seq![host@, command@]);
            "ssh".to_owned()
        },
    };
    push_all(&mut out, args);
    let r = Invocation { program, args: out };
    assert(r@.1 =~= invocation(command@, args.deep_view(), context_model(context)).1);
    r
}

/// Resolution is deterministic: the same command, arguments and context
/// always give the same program and arguments.
pub proof fn lemma_resolution_deterministic(
    command: Seq<char>,
    args: Seq<Seq<char>>,
    context: Option<ContextModel>,
    first: (Seq<char>, Seq<Seq<char>>),
    second: (Seq<char>, Seq<Seq<char>>),
)
    requires
        first == invocation(command, args, context),
        second == invocation(command, args, context),
    ensures
        first == second,
{
}

} // verus!
