//! The error shape every command returns: a coarse code, an i18n key and the key's
//! placeholder values.

use vstd::prelude::*;

verus! {

/// The map a list of `(name, value)` pairs stands for when no name occurs twice.
pub open spec fn pairs_map(s: Seq<(Seq<char>, Seq<char>)>) -> Map<Seq<char>, Seq<char>> {
    Map::new(
        |k: Seq<char>| exists|i: int| 0 <= i < s.len() && #[trigger] s[i].0 == k,
        |k: Seq<char>| s[choose|i: int| 0 <= i < s.len() && #[trigger] s[i].0 == k].1,
    )
}

/// `(name, value)` pairs of strings as plain character sequences.
pub open spec fn entries_pairs(v: Seq<(String, String)>) -> Seq<(Seq<char>, Seq<char>)> {
    v.map_values(|e: (String, String)| (e.0@, e.1@))
}

/// No name occurs twice in `s`.
pub open spec fn names_distinct(s: Seq<(Seq<char>, Seq<char>)>) -> bool {
    forall|i: int, j: int| 0 <= i < s.len() && 0 <= j < s.len() && i != j ==> s[i].0 != s[j].0
}

/// Named placeholder values of an i18n key (`{name}` → value). A name occurs at most once;
/// setting it again replaces its value.
#[derive(Debug)]
pub struct Params {
    entries: Vec<(String, String)>,
}

impl Params {
    /// The entries as plain character sequences, in insertion order.
    pub closed spec fn pairs(&self) -> Seq<(Seq<char>, Seq<char>)> {
        entries_pairs(self.entries@)
    }

    #[verifier::type_invariant]
    closed spec fn inv(&self) -> bool {
        names_distinct(self.pairs())
    }

    /// No placeholder values.
    pub fn new() -> (p: Params)
        ensures
            p@ == Map::<Seq<char>, Seq<char>>::empty(),
    {
        let p = Params { entries: Vec::new() };
        assert(p@ =~= Map::<Seq<char>, Seq<char>>::empty());
        p
    }

    /// `self` with `name` set to `value` (replacing an earlier value of `name`).
    pub fn with(self, name: String, value: String) -> (p: Params)
        ensures
            p@ == self@.insert(name@, value@),
    {
        proof {
            use_type_invariant(&self);
        }
        let ghost old_pairs = self.pairs();
        let ghost old_view = self@;
        let ghost old_entries = self.entries@;
        assert(old_view == pairs_map(old_pairs));
        let Params { entries } = self;
        let mut entries = entries;
        let n = entries.len();
        let mut i: usize = 0;
        while i < n
            invariant
                n == entries.len(),
                entries@ == old_entries,
                old_pairs == entries_pairs(old_entries),
                old_view == pairs_map(old_pairs),
                self@ == old_view,
                names_distinct(old_pairs),
                i <= n,
                forall|j: int| 0 <= j < i ==> entries@[j].0@ != name@,
            decreases n - i,
        {
            if entries[i].0 == name {
                proof {
                    assert(old_pairs[i as int].0 == name@);
                }
                entries.set(i, (name, value));
                proof {
                    assert(entries_pairs(entries@) =~= old_pairs.update(i as int, (name@, value@)));
                    lemma_update_keeps_distinct(old_pairs, i as int, value@);
                    lemma_pairs_map_update(old_pairs, i as int, value@);
                }
                let p = Params { entries };
                assert(p.pairs() == old_pairs.update(i as int, (old_pairs[i as int].0, value@)));
                assert(p@ == pairs_map(old_pairs).insert(name@, value@));
                return p;
            }
            i += 1;
        }
        entries.push((name, value));
        proof {
            assert(entries_pairs(entries@) =~= old_pairs.push((name@, value@)));
            lemma_pairs_map_push(old_pairs, name@, value@);
        }
        Params { entries }
    }

    /// The value of `name`, if set.
    pub fn get(&self, name: &str) -> (v: Option<&String>)
        ensures
            v.is_some() == self@.contains_key(name@),
            v.is_some() ==> v.unwrap()@ == self@[name@],
    {
        proof {
            use_type_invariant(self);
        }
        let key = name.to_owned();
        let n = self.entries.len();
        let mut i: usize = 0;
        while i < n
            invariant
                n == self.entries.len(),
                key@ == name@,
                names_distinct(self.pairs()),
                i <= n,
                forall|j: int| 0 <= j < i ==> self.pairs()[j].0 != name@,
            decreases n - i,
        {
            if self.entries[i].0 == key {
                proof {
                    lemma_pairs_map_at(self.pairs(), i as int);
                }
                return Some(&self.entries[i].1);
            }
            i += 1;
        }
        proof {
            assert(!self@.contains_key(name@)) by {
                if self@.contains_key(name@) {
                    let s = self.pairs();
                    let k = choose|k: int| 0 <= k < s.len() && #[trigger] s[k].0 == name@;
                    assert(s[k].0 == name@);
                }
            }
        }
        None
    }

    /// How many names are set.
    pub fn len(&self) -> (n: usize)
        ensures
            n == self@.len(),
            n == self.pairs().len(),
            names_distinct(self.pairs()),
    {
        proof {
            use_type_invariant(self);
            lemma_pairs_map_len(self.pairs());
        }
        self.entries.len()
    }

    /// The `i`-th `(name, value)` pair in insertion order.
    pub fn entry(&self, i: usize) -> (e: (&String, &String))
        requires
            i < self@.len(),
        ensures
            (e.0@, e.1@) == self.pairs()[i as int],
            self@.contains_key(e.0@),
            self@[e.0@] == e.1@,
    {
        proof {
            use_type_invariant(self);
            lemma_pairs_map_len(self.pairs());
            lemma_pairs_map_at(self.pairs(), i as int);
        }
        (&self.entries[i].0, &self.entries[i].1)
    }

}

impl Clone for Params {
    fn clone(&self) -> (c: Self)
        ensures
            c@ == self@,
    {
        proof {
            use_type_invariant(self);
        }
        let n = self.entries.len();
        let mut entries: Vec<(String, String)> = Vec::new();
        let mut i: usize = 0;
        while i < n
            invariant
                n == self.entries.len(),
                i <= n,
                entries@.len() == i,
                forall|j: int| 0 <= j < i ==> #[trigger] entries@[j].0@ == self.entries@[j].0@
                    && entries@[j].1@ == self.entries@[j].1@,
            decreases n - i,
        {
            let k = self.entries[i].0.clone();
            let v = self.entries[i].1.clone();
            entries.push((k, v));
            i += 1;
        }
        proof {
            assert(entries_pairs(entries@) =~= self.pairs());
        }
        Params { entries }
    }
}

/// A placeholder reads back as the value last set for it; setting one leaves every other
/// placeholder as it was.
pub proof fn lemma_param_read_after_write(
    params: Map<Seq<char>, Seq<char>>,
    name: Seq<char>,
    value: Seq<char>,
    other: Seq<char>,
)
    ensures
        params.insert(name, value).contains_key(name),
        params.insert(name, value)[name] == value,
        other != name ==> params.insert(name, value).contains_key(other) == params.contains_key(other),
        other != name && params.contains_key(other) ==> params.insert(name, value)[other] == params[other],
{
}

impl View for Params {
    type V = Map<Seq<char>, Seq<char>>;

    open spec fn view(&self) -> Map<Seq<char>, Seq<char>> {
        pairs_map(self.pairs())
    }
}

pub proof fn lemma_pairs_map_at(s: Seq<(Seq<char>, Seq<char>)>, i: int)
    requires
        names_distinct(s),
        0 <= i < s.len(),
    ensures
        pairs_map(s).contains_key(s[i].0),
        pairs_map(s)[s[i].0] == s[i].1,
{
    let k = s[i].0;
    assert(s[i].0 == k);
    let c = choose|j: int| 0 <= j < s.len() && #[trigger] s[j].0 == k;
    assert(c == i);
}

pub proof fn lemma_update_keeps_distinct(s: Seq<(Seq<char>, Seq<char>)>, i: int, v: Seq<char>)
    requires
        names_distinct(s),
        0 <= i < s.len(),
    ensures
        names_distinct(s.update(i, (s[i].0, v))),
{
}

pub proof fn lemma_pairs_map_update(s: Seq<(Seq<char>, Seq<char>)>, i: int, v: Seq<char>)
    requires
        names_distinct(s),
        0 <= i < s.len(),
    ensures
        pairs_map(s.update(i, (s[i].0, v))) == pairs_map(s).insert(s[i].0, v),
{
    let t = s.update(i, (s[i].0, v));
    lemma_update_keeps_distinct(s, i, v);
    let k0 = s[i].0;
    assert forall|k: Seq<char>| #[trigger] pairs_map(t).contains_key(k) == pairs_map(s).insert(k0, v).contains_key(k) by {
        if pairs_map(s).contains_key(k) {
            let j = choose|j: int| 0 <= j < s.len() && #[trigger] s[j].0 == k;
            assert(t[j].0 == k);
        }
        if pairs_map(t).contains_key(k) {
            let j = choose|j: int| 0 <= j < t.len() && #[trigger] t[j].0 == k;
            assert(s[j].0 == k);
        }
        if k == k0 {
            assert(t[i].0 == k);
        }
    }
    assert forall|k: Seq<char>| #[trigger] pairs_map(t).contains_key(k) implies pairs_map(t)[k] == pairs_map(s).insert(k0, v)[k] by {
        let j = choose|j: int| 0 <= j < t.len() && #[trigger] t[j].0 == k;
        lemma_pairs_map_at(t, j);
        if j != i {
            lemma_pairs_map_at(s, j);
        }
    }
    assert(pairs_map(t) =~= pairs_map(s).insert(k0, v));
}

pub proof fn lemma_pairs_map_push(s: Seq<(Seq<char>, Seq<char>)>, k0: Seq<char>, v: Seq<char>)
    requires
        names_distinct(s),
        forall|j: int| 0 <= j < s.len() ==> s[j].0 != k0,
    ensures
        names_distinct(s.push((k0, v))),
        pairs_map(s.push((k0, v))) == pairs_map(s).insert(k0, v),
{
    let t = s.push((k0, v));
    assert(names_distinct(t));
    assert forall|k: Seq<char>| #[trigger] pairs_map(t).contains_key(k) == pairs_map(s).insert(k0, v).contains_key(k) by {
        if pairs_map(s).contains_key(k) {
            let j = choose|j: int| 0 <= j < s.len() && #[trigger] s[j].0 == k;
            assert(t[j].0 == k);
        }
        if pairs_map(t).contains_key(k) {
            let j = choose|j: int| 0 <= j < t.len() && #[trigger] t[j].0 == k;
            if j < s.len() {
                assert(s[j].0 == k);
            }
        }
        if k == k0 {
            assert(t[s.len() as int].0 == k);
        }
    }
    assert forall|k: Seq<char>| #[trigger] pairs_map(t).contains_key(k) implies pairs_map(t)[k] == pairs_map(s).insert(k0, v)[k] by {
        let j = choose|j: int| 0 <= j < t.len() && #[trigger] t[j].0 == k;
        lemma_pairs_map_at(t, j);
        if j < s.len() {
            lemma_pairs_map_at(s, j);
        }
    }
    assert(pairs_map(t) =~= pairs_map(s).insert(k0, v));
}

pub proof fn lemma_pairs_map_len(s: Seq<(Seq<char>, Seq<char>)>)
    requires
        names_distinct(s),
    ensures
        pairs_map(s).dom().finite(),
        pairs_map(s).len() == s.len(),
    decreases s.len(),
{
    if s.len() == 0 {
        assert(pairs_map(s) =~= Map::<Seq<char>, Seq<char>>::empty());
    } else {
        let p = s.drop_last();
        assert(names_distinct(p));
        lemma_pairs_map_len(p);
        assert forall|j: int| 0 <= j < p.len() implies p[j].0 != s.last().0 by {
            assert(s[j].0 != s[s.len() - 1].0);
        }
        lemma_pairs_map_push(p, s.last().0, s.last().1);
        assert(p.push(s.last()) =~= s);
        assert(!pairs_map(p).contains_key(s.last().0)) by {
            if pairs_map(p).contains_key(s.last().0) {
                let j = choose|j: int| 0 <= j < p.len() && #[trigger] p[j].0 == s.last().0;
                assert(p[j].0 == s.last().0);
            }
        }
    }
}

/// Coarse error classification shared by every command; the UI always renders `key` through
/// i18n, the code only groups errors.
#[derive(Debug, Clone, Copy, PartialEq, Eq, Structural)]
pub enum IpcErrorCode {
    /// Unexpected internal failure; details go to `params.message`.
    Internal,
    /// A command argument failed validation.
    InvalidArgument,
    /// The referenced document, file or session doesn't exist (any more).
    NotFound,
    /// An audio edit, undo or redo is refused while a recording is in progress.
    NotWhileRecording,
    /// A device named in a command or the settings no longer exists.
    DeviceNotFound,
    /// The device was lost while in use.
    DeviceLost,
    /// A filesystem operation failed.
    Io,
    /// A long-running, cancellable operation was cancelled by the user.
    Cancelled,
    /// Another document job is already running.
    Busy,
    /// The command needs the user's confirmation first; the UI asks and re-issues it.
    NeedsConfirmation,
}

/// The error every command returns: `key` is an i18n key, `params` fills its placeholders.
#[derive(Debug)]
pub struct IpcError {
    pub code: IpcErrorCode,
    pub key: String,
    pub params: Params,
}

/// `e` has code `code`, key `key` and no placeholder values.
pub open spec fn is_plain_error(e: IpcError, code: IpcErrorCode, key: Seq<char>) -> bool {
    &&& e.code == code
    &&& e.key@ == key
    &&& e.params@ == Map::<Seq<char>, Seq<char>>::empty()
}

/// `e` has code `code`, key `key` and exactly the one placeholder `name = value`.
pub open spec fn is_error_with(
    e: IpcError,
    code: IpcErrorCode,
    key: Seq<char>,
    name: Seq<char>,
    value: Seq<char>,
) -> bool {
    &&& e.code == code
    &&& e.key@ == key
    &&& e.params@ == Map::<Seq<char>, Seq<char>>::empty().insert(name, value)
}

impl IpcError {
    /// An error with no placeholder values.
    pub fn new(code: IpcErrorCode, key: &str) -> (e: IpcError)
        ensures
            is_plain_error(e, code, key@),
    {
        IpcError { code, key: key.to_owned(), params: Params::new() }
    }

    /// `self` with placeholder `name` set to `value`.
    pub fn with_param(self, name: &str, value: &str) -> (e: IpcError)
        ensures
            e.code == self.code,
            e.key@ == self.key@,
            e.params@ == self.params@.insert(name@, value@),
    {
        let IpcError { code, key, params } = self;
        IpcError { code, key, params: params.with(name.to_owned(), value.to_owned()) }
    }

    /// A generic internal error carrying `message` for the logs.
    pub fn internal(message: &str) -> (e: IpcError)
        ensures
            is_error_with(e, IpcErrorCode::Internal, "error.internal"@, "message"@, message@),
    {
        Self::new(IpcErrorCode::Internal, "error.internal").with_param("message", message)
    }

    /// The refusal of an edit, undo or redo while recording.
    pub fn not_while_recording() -> (e: IpcError)
        ensures
            is_plain_error(e, IpcErrorCode::NotWhileRecording, "error.not_while_recording"@),
    {
        Self::new(IpcErrorCode::NotWhileRecording, "error.not_while_recording")
    }

    /// The refusal of a document change while another document job runs.
    pub fn document_busy() -> (e: IpcError)
        ensures
            is_plain_error(e, IpcErrorCode::Busy, "error.document_busy"@),
    {
        Self::new(IpcErrorCode::Busy, "error.document_busy")
    }

    /// A filesystem failure described by `message`.
    pub fn io(message: &str) -> (e: IpcError)
        ensures
            is_error_with(e, IpcErrorCode::Io, "error.io"@, "message"@, message@),
    {
        Self::new(IpcErrorCode::Io, "error.io").with_param("message", message)
    }
}

impl Clone for IpcError {
    fn clone(&self) -> (c: Self)
        ensures
            c.code == self.code,
            c.key@ == self.key@,
            c.params@ == self.params@,
    {
        IpcError { code: self.code, key: self.key.clone(), params: self.params.clone() }
    }
}

#[verifier::external_type_specification]
#[verifier::external_body]
pub struct ExIoError(std::io::Error);

/// `std::io::Error`'s `Display` text (through `ToString::to_string`). Nothing is claimed of
/// the text: for an OS error it is the platform's message for the error number.
#[verifier::external_body]
fn io_error_text(err: &std::io::Error) -> String {
    err.to_string()
}

impl From<std::io::Error> for IpcError {
    /// `error.io`, with the error's text as `message`.
    fn from(err: std::io::Error) -> (e: Self)
        ensures
            e.code == IpcErrorCode::Io,
            e.key@ == "error.io"@,
            e.params@.dom() == Set::<Seq<char>>::empty().insert("message"@),
    {
        let text = io_error_text(&err);
        let e = IpcError::io(text.as_str());
        proof {
            assert(e.params@.dom() =~= Set::<Seq<char>>::empty().insert("message"@));
        }
        e
    }
}

impl vstd::std_specs::convert::FromSpecImpl<std::io::Error> for IpcError {
    open spec fn obeys_from_spec() -> bool {
        false
    }

    open spec fn from_spec(v: std::io::Error) -> IpcError {
        vstd::pervasive::arbitrary()
    }
}

} // verus!
