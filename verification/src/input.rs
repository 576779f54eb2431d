//! Text output by simulated key presses.
//!
//! The handler decides which external programs have to run, with which
//! arguments, to type a text, to delete characters, or to turn one text on
//! the screen into another. Running them is the caller's part.

use vstd::prelude::*;

verus! {

/// The program by which text is put out.
#[derive(Debug, Clone, Copy, PartialEq, Eq, Structural)]
pub enum InputMethod {
    Wtype,
    Ydotool,
    /// The clipboard: text can be copied there, nothing can be deleted.
    WlCopy,
}

/// One run of an external program.
#[derive(Debug, Clone, PartialEq, Eq)]
pub struct Invocation {
    pub program: String,
    pub args: Vec<String>,
    /// What to write to the standard input of the program, if anything.
    pub stdin: Option<String>,
    /// Whether an exit status other than success is an error.
    pub check_status: bool,
}

pub struct InvocationView {
    pub program: Seq<char>,
    pub args: Seq<Seq<char>>,
    pub stdin: Option<Seq<char>>,
    pub check_status: bool,
}

impl View for Invocation {
    type V = InvocationView;

    open spec fn view(&self) -> InvocationView {
        InvocationView {
            program: self.program@,
            args: self.args@.map_values(|a: String| a@),
            stdin: match self.stdin {
                Some(s) => Some(s@),
                None => None,
            },
            check_status: self.check_status,
        }
    }
}

/// The views of a list of invocations.
pub open spec fn views(list: Seq<Invocation>) -> Seq<InvocationView> {
    list.map_values(|i: Invocation| i@)
}

/// The method to use, given which programs are installed: `wtype` if it is
/// there, else `ydotool` if it is there, else the clipboard.
pub open spec fn detected_method(wtype: bool, ydotool: bool) -> InputMethod {
    if wtype {
        InputMethod::Wtype
    } else if ydotool {
        InputMethod::Ydotool
    } else {
        InputMethod::WlCopy
    }
}

/// The run that puts out `text`.
pub open spec fn typing(method: InputMethod, text: Seq<char>) -> InvocationView {
    match method {
        InputMethod::Wtype => InvocationView {
            program: "wtype"@,
            args: seq!["--"@, text],
            stdin: None,
            check_status: true,
        },
        InputMethod::Ydotool => InvocationView {
            program: "ydotool"@,
            args: seq!["type"@, "--"@, text],
            stdin: None,
            check_status: true,
        },
        InputMethod::WlCopy => InvocationView {
            program: "wl-copy"@,
            args: seq![],
            stdin: Some(text),
            check_status: false,
        },
    }
}

/// The run that deletes one character. The clipboard has none.
pub open spec fn backspace(method: InputMethod) -> Option<InvocationView> {
    match method {
        InputMethod::Wtype => Some(
            InvocationView {
                program: "wtype"@,
                args: seq!["-k"@, "BackSpace"@],
                stdin: None,
                check_status: false,
            },
        ),
        InputMethod::Ydotool => Some(
            InvocationView {
                program: "ydotool"@,
                args: seq!["key"@, "14:1"@, "14:0"@],
                stdin: None,
                check_status: false,
            },
        ),
        InputMethod::WlCopy => None,
    }
}

/// Typing `text`: one run, or none for the empty text.
pub open spec fn spec_type_text(method: InputMethod, text: Seq<char>) -> Option<InvocationView> {
    if text.len() == 0 {
        None
    } else {
        Some(typing(method, text))
    }
}

/// Deleting `count` characters: one backspace for each, where the method
/// has a backspace.
pub open spec fn spec_delete_chars(method: InputMethod, count: nat) -> Seq<InvocationView> {
    match backspace(method) {
        Some(b) => Seq::new(count, |i: int| b),
        None => Seq::empty(),
    }
}

/// The number of leading characters that `a` and `b` have in common.
pub open spec fn common_prefix_len(a: Seq<char>, b: Seq<char>) -> nat
    decreases a.len(),
{
    if a.len() > 0 && b.len() > 0 && a[0] == b[0] {
        1 + common_prefix_len(a.drop_first(), b.drop_first())
    } else {
        0
    }
}

/// Turning `previous` into `new`: nothing if they are equal; else the
/// characters of `previous` after the common prefix are deleted, and those
/// of `new` after it are typed.
pub open spec fn spec_update_text(method: InputMethod, previous: Seq<char>, new: Seq<char>) -> Seq<
    InvocationView,
> {
    if previous == new {
        Seq::empty()
    } else {
        let common = common_prefix_len(previous, new);
        let deletions = spec_delete_chars(method, (previous.len() - common) as nat);
        match spec_type_text(method, new.skip(common as int)) {
            Some(t) => deletions.push(t),
            None => deletions,
        }
    }
}

/// The characters of `s`, in order.
fn chars_of(s: &str) -> (v: Vec<char>)
    ensures
        v@ == s@,
{
    let mut v: Vec<char> = Vec::new();
    for c in it: s.chars()
        invariant
            it.seq() == s@,
            v@ == it.seq().take(it.index() as int),
    {
        v.push(c);
        assert(it.seq().take(it.index() + 1) =~= it.seq().take(it.index() as int).push(c));
    }
    assert(v@ =~= s@);
    v
}

/// `k` is the length of the common prefix of `a` and `b` if they agree
/// before `k` and differ at `k`, or one of them ends there.
proof fn common_prefix_found(a: Seq<char>, b: Seq<char>, k: int)
    requires
        0 <= k <= a.len(),
        k <= b.len(),
        forall|j: int| 0 <= j < k ==> a[j] == b[j],
        k == a.len() || k == b.len() || a[k] != b[k],
    ensures
        common_prefix_len(a, b) == k,
    decreases k,
{
    if k > 0 {
        let a1 = a.drop_first();
        let b1 = b.drop_first();
        assert forall|j: int| 0 <= j < k - 1 implies a1[j] == b1[j] by {
            assert(a1[j] == a[j + 1] && b1[j] == b[j + 1]);
        }
        if k < a.len() && k < b.len() {
            assert(a1[k - 1] == a[k] && b1[k - 1] == b[k]);
        }
        common_prefix_found(a1, b1, k - 1);
        assert(a[0] == b[0]);
    }
}

fn typing_run(method: InputMethod, text: &str) -> (run: Invocation)
    ensures
        run@ == typing(method, text@),
{
    match method {
        InputMethod::Wtype => {
            let mut args: Vec<String> = Vec::new();
            args.push("--".to_string());
            args.push(text.to_owned());
            let run = Invocation {
                program: "wtype".to_string(),
                args,
                stdin: None,
                check_status: true,
            };
            assert(run@.args =~= seq!["--"@, text@]);
            run
        },
        InputMethod::Ydotool => {
            let mut args: Vec<String> = Vec::new();
            args.push("type".to_string());
            args.push("--".to_string());
            args.push(text.to_owned());
            let run = Invocation {
                program: "ydotool".to_string(),
                args,
                stdin: None,
                check_status: true,
            };
            assert(run@.args =~= seq!["type"@, "--"@, text@]);
            run
        },
        InputMethod::WlCopy => {
            let run = Invocation {
                program: "wl-copy".to_string(),
                args: Vec::new(),
                stdin: Some(text.to_owned()),
                check_status: false,
            };
            assert(run@.args =~= seq![]);
            run
        },
    }
}

fn backspace_run(method: InputMethod) -> (run: Option<Invocation>)
    ensures
        match backspace(method) {
            Some(b) => run is Some && run->0@ == b,
            None => run is None,
        },
{
    match method {
        InputMethod::Wtype => {
            let mut args: Vec<String> = Vec::new();
            args.push("-k".to_string());
            args.push("BackSpace".to_string());
            let run = Invocation {
                program: "wtype".to_string(),
                args,
                stdin: None,
                check_status: false,
            };
            assert(run@.args =~= seq!["-k"@, "BackSpace"@]);
            Some(run)
        },
        InputMethod::Ydotool => {
            let mut args: Vec<String> = Vec::new();
            args.push("key".to_string());
            args.push("14:1".to_string());
            args.push("14:0".to_string());
            let run = Invocation {
                program: "ydotool".to_string(),
                args,
                stdin: None,
                check_status: false,
            };
            assert(run@.args =~= seq!["key"@, "14:1"@, "14:0"@]);
            Some(run)
        },
        InputMethod::WlCopy => None,
    }
}

/// Decides how text is put out.
pub struct TextInputHandler {
    method: InputMethod,
}

impl TextInputHandler {
    pub closed spec fn spec_method(&self) -> InputMethod {
        self.method
    }

    /// A handler for the best method among the programs that are installed.
    pub fn new(wtype_available: bool, ydotool_available: bool) -> (handler: TextInputHandler)
        ensures
            handler.spec_method() == detected_method(wtype_available, ydotool_available),
    {
        let method = if wtype_available {
            InputMethod::Wtype
        } else if ydotool_available {
            InputMethod::Ydotool
        } else {
            InputMethod::WlCopy
        };
        TextInputHandler { method }
    }

    pub fn method(&self) -> (method: InputMethod)
        ensures
            method == self.spec_method(),
    {
        self.method
    }

    /// The run that types `text`; none for the empty text.
    pub fn type_text(&self, text: &str) -> (run: Option<Invocation>)
        ensures
            match spec_type_text(self.spec_method(), text@) {
                Some(t) => run is Some && run->0@ == t,
                None => run is None,
            },
    {
        if text.is_empty() {
            return None;
        }
        Some(typing_run(self.method, text))
    }

    /// The runs that delete `count` characters.
    pub fn delete_chars(&self, count: usize) -> (runs: Vec<Invocation>)
        ensures
            views(runs@) == spec_delete_chars(self.spec_method(), count as nat),
    {
        let mut runs: Vec<Invocation> = Vec::new();
        let mut i: usize = 0;
        while i < count
            invariant
                i <= count,
                backspace(self.spec_method()) is Some ==> views(runs@) =~= Seq::new(
                    i as nat,
                    |j: int| backspace(self.spec_method())->0,
                ),
                backspace(self.spec_method()) is None ==> runs@.len() == 0,
            decreases count - i,
        {
            let ghost before = views(runs@);
            match backspace_run(self.method) {
                Some(run) => {
                    runs.push(run);
                    assert(views(runs@) =~= before.push(run@));
                },
                None => {
                    assert(views(runs@) =~= Seq::empty());
                    return runs;
                },
            }
            i += 1;
        }
        assert(views(runs@) =~= spec_delete_chars(self.spec_method(), count as nat));
        runs
    }

    /// The runs that turn the text `previous` on the screen into `new`, in
    /// the order in which they have to happen.
    pub fn update_text(&self, previous: &str, new: &str) -> (runs: Vec<Invocation>)
        ensures
            views(runs@) == spec_update_text(self.spec_method(), previous@, new@),
    {
        let old_chars = chars_of(previous);
        let new_chars = chars_of(new);
        let mut common: usize = 0;
        while common < old_chars.len() && common < new_chars.len() && old_chars[common]
            == new_chars[common]
            invariant
                common <= old_chars.len(),
                common <= new_chars.len(),
                forall|j: int| 0 <= j < common ==> old_chars@[j] == new_chars@[j],
            decreases old_chars.len() - common,
        {
            common += 1;
        }
        proof {
            common_prefix_found(previous@, new@, common as int);
        }
        if common == old_chars.len() && common == new_chars.len() {
            assert(previous@ =~= new@);
            let runs: Vec<Invocation> = Vec::new();
            assert(views(runs@) =~= Seq::empty());
            return runs;
        }
        assert(previous@ != new@);
        let mut runs = self.delete_chars(old_chars.len() - common);
        let added = new.substring_char(common, new_chars.len());
        assert(added@ =~= new@.skip(common as int));
        let ghost deletions = views(runs@);
        match self.type_text(added) {
            Some(run) => {
                runs.push(run);
                assert(views(runs@) =~= deletions.push(run@));
            },
            None => {},
        }
        runs
    }
}

/// Deleting what follows the common prefix and typing what `new` has after
/// it turns `previous` into `new`. No longer prefix is common to both.
pub proof fn update_turns_previous_into_new(previous: Seq<char>, new: Seq<char>)
    ensures
        common_prefix_len(previous, new) <= previous.len(),
        common_prefix_len(previous, new) <= new.len(),
        previous.take(common_prefix_len(previous, new) as int) + new.skip(
            common_prefix_len(previous, new) as int,
        ) == new,
        common_prefix_len(previous, new) < previous.len() && common_prefix_len(previous, new)
            < new.len() ==> previous[common_prefix_len(previous, new) as int] != new[common_prefix_len(
            previous,
            new,
        ) as int],
    decreases previous.len(),
{
    if previous.len() > 0 && new.len() > 0 && previous[0] == new[0] {
        let p = previous.drop_first();
        let n = new.drop_first();
        update_turns_previous_into_new(p, n);
        let k = common_prefix_len(p, n) as int;
        assert(previous.take(k + 1) =~= seq![previous[0]] + p.take(k));
        assert(new.skip(k + 1) =~= n.skip(k));
        assert(new =~= seq![new[0]] + n);
        assert(previous.take(k + 1) + new.skip(k + 1) =~= new);
        if k + 1 < previous.len() && k + 1 < new.len() {
            assert(p[k] == previous[k + 1] && n[k] == new[k + 1]);
        }
    } else {
        assert(previous.take(0) + new.skip(0) =~= new);
    }
}

} // verus!
