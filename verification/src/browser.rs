//! Browsers and browser types as the server describes them.

use vstd::prelude::*;
use crate::error::Error;
use crate::text::{owned, str_eq};

verus! {

/// A browser instance created by `BrowserType::launch`.
///
/// A browser's connection state exists once: the type is not `Clone`, and
/// handles that share a browser share this one value (behind a lock), so a
/// disconnection seen through one handle is seen through all of them.
#[derive(Debug)]
pub struct Browser {
    version: String,
    name: String,
    is_connected: bool,
}

impl Browser {
    pub closed spec fn version_spec(&self) -> Seq<char> {
        self.version@
    }

    pub closed spec fn name_spec(&self) -> Seq<char> {
        self.name@
    }

    pub closed spec fn connected(&self) -> bool {
        self.is_connected
    }

    /// A connected browser from the `version` and `name` initializer fields;
    /// a missing field is a protocol error (version is checked first).
    pub fn from_initializer(version: Option<String>, name: Option<String>) -> (r: Result<Browser, Error>)
        ensures
            match (version, name) {
                (Some(v), Some(n)) => r matches Ok(b) && b.version_spec() == v@ && b.name_spec() == n@
                    && b.connected(),
                (None, _) => r matches Err(Error::ProtocolError(m)) && m@
                    == "Browser initializer missing 'version' field"@,
                (Some(_), None) => r matches Err(Error::ProtocolError(m)) && m@
                    == "Browser initializer missing 'name' field"@,
            },
    {
        let version = match version {
            Some(v) => v,
            None => {
                return Err(Error::ProtocolError(owned("Browser initializer missing 'version' field")));
            },
        };
        let name = match name {
            Some(n) => n,
            None => {
                return Err(Error::ProtocolError(owned("Browser initializer missing 'name' field")));
            },
        };
        Ok(Browser { version, name, is_connected: true })
    }

    /// The browser version.
    pub fn version(&self) -> (r: &str)
        ensures
            r@ == self.version_spec(),
    {
        self.version.as_str()
    }

    /// The browser name.
    pub fn name(&self) -> (r: &str)
        ensures
            r@ == self.name_spec(),
    {
        self.name.as_str()
    }

    /// Whether the browser is still connected.
    pub fn is_connected(&self) -> (r: bool)
        ensures
            r == self.connected(),
    {
        self.is_connected
    }

    /// Handles a server event: `disconnected` marks the browser disconnected;
    /// every other event leaves the state alone.
    pub fn on_event(&mut self, method: &str)
        ensures
            final(self).connected() == connected_after(old(self).connected(), method@),
            final(self).version_spec() == old(self).version_spec(),
            final(self).name_spec() == old(self).name_spec(),
    {
        if str_eq(method, "disconnected") {
            self.is_connected = false;
        }
    }

    /// The browser object was disposed: it is disconnected.
    pub fn dispose(&mut self)
        ensures
            !final(self).connected(),
            final(self).version_spec() == old(self).version_spec(),
            final(self).name_spec() == old(self).name_spec(),
    {
        self.is_connected = false;
    }
}

/// Whether a browser is connected after one event.
pub open spec fn connected_after(was_connected: bool, method: Seq<char>) -> bool {
    was_connected && method != "disconnected"@
}

/// Whether a browser is connected after a series of events, in order.
pub open spec fn connected_after_all(was_connected: bool, methods: Seq<Seq<char>>) -> bool
    decreases methods.len(),
{
    if methods.len() == 0 {
        was_connected
    } else {
        connected_after(connected_after_all(was_connected, methods.drop_last()), methods.last())
    }
}

/// Over any series of events, a browser is still connected exactly when it
/// was connected and no `disconnected` event came; so once disconnected, it
/// stays disconnected whatever events follow.
pub proof fn lemma_disconnection_is_final(was_connected: bool, methods: Seq<Seq<char>>)
    ensures
        connected_after_all(was_connected, methods) == (was_connected && !methods.contains(
            "disconnected"@,
        )),
        !was_connected ==> !connected_after_all(was_connected, methods),
    decreases methods.len(),
{
    if methods.len() > 0 {
        let init = methods.drop_last();
        lemma_disconnection_is_final(was_connected, init);
        if methods.contains("disconnected"@) {
            let k = choose|k: int| 0 <= k < methods.len() && methods[k] == "disconnected"@;
            if k < methods.len() - 1 {
                assert(init[k] == methods[k]);
            }
        }
        if init.contains("disconnected"@) {
            let k = choose|k: int| 0 <= k < init.len() && init[k] == "disconnected"@;
            assert(methods[k] == init[k]);
        }
        if methods.last() == "disconnected"@ {
            assert(methods[methods.len() - 1] == methods.last());
        }
    }
}

/// A browser type (chromium, firefox or webkit).
#[derive(Debug, Clone)]
pub struct BrowserType {
    name: String,
    executable_path: String,
}

impl BrowserType {
    pub closed spec fn name_spec(&self) -> Seq<char> {
        self.name@
    }

    pub closed spec fn executable_path_spec(&self) -> Seq<char> {
        self.executable_path@
    }

    /// A browser type from the `name` and `executablePath` initializer
    /// fields; a missing field is a protocol error (name is checked first).
    pub fn from_initializer(name: Option<String>, executable_path: Option<String>) -> (r: Result<
        BrowserType,
        Error,
    >)
        ensures
            match (name, executable_path) {
                (Some(n), Some(p)) => r matches Ok(b) && b.name_spec() == n@
                    && b.executable_path_spec() == p@,
                (None, _) => r matches Err(Error::ProtocolError(m)) && m@
                    == "BrowserType initializer missing 'name'"@,
                (Some(_), None) => r matches Err(Error::ProtocolError(m)) && m@
                    == "BrowserType initializer missing 'executablePath'"@,
            },
    {
        let name = match name {
            Some(n) => n,
            None => {
                return Err(Error::ProtocolError(owned("BrowserType initializer missing 'name'")));
            },
        };
        let executable_path = match executable_path {
            Some(p) => p,
            None => {
                return Err(
                    Error::ProtocolError(owned("BrowserType initializer missing 'executablePath'")),
                );
            },
        };
        Ok(BrowserType { name, executable_path })
    }

    /// The browser name.
    pub fn name(&self) -> (r: &str)
        ensures
            r@ == self.name_spec(),
    {
        self.name.as_str()
    }

    /// The path of the browser executable.
    pub fn executable_path(&self) -> (r: &str)
        ensures
            r@ == self.executable_path_spec(),
    {
        self.executable_path.as_str()
    }
}

/// Launch flags added on Windows CI runners to keep browsers from hanging.
pub open spec fn ci_flags() -> Seq<Seq<char>> {
    seq![
        "--no-sandbox"@,
        "--disable-dev-shm-usage"@,
        "--disable-gpu"@,
        "--disable-web-security"@,
        "--disable-features=IsolateOrigins,site-per-process"@,
    ]
}

/// The view of a list of strings.
pub open spec fn strings_view(v: Seq<String>) -> Seq<Seq<char>> {
    v.map_values(|s: String| s@)
}

/// `flags` appended, in order, to `args`, each only if not already there
/// (counting the ones appended before it).
pub open spec fn add_missing(args: Seq<Seq<char>>, flags: Seq<Seq<char>>) -> Seq<Seq<char>>
    decreases flags.len(),
{
    if flags.len() == 0 {
        args
    } else {
        let before = add_missing(args, flags.drop_last());
        if before.contains(flags.last()) {
            before
        } else {
            before.push(flags.last())
        }
    }
}

fn contains_string(v: &Vec<String>, s: &str) -> (r: bool)
    ensures
        r == strings_view(v@).contains(s@),
{
    let mut i: usize = 0;
    while i < v.len()
        invariant
            i <= v@.len(),
            forall|j: int| 0 <= j < i ==> v@[j]@ != s@,
        decreases v@.len() - i,
    {
        if str_eq(v[i].as_str(), s) {
            assert(strings_view(v@)[i as int] == s@);
            return true;
        }
        i = i + 1;
    }
    assert forall|j: int| 0 <= j < strings_view(v@).len() implies strings_view(v@)[j] != s@ by {}
    false
}

/// The launch arguments with the Windows CI stability flags added: the
/// caller's arguments come first and keep their order, each flag not
/// already present is appended once.
pub fn with_ci_stability_flags(args: Option<Vec<String>>) -> (r: Vec<String>)
    ensures
        strings_view(r@) == add_missing(
            match args {
                Some(a) => strings_view(a@),
                None => Seq::empty(),
            },
            ci_flags(),
        ),
{
    let ghost a0 = match &args {
        Some(a) => strings_view(a@),
        None => Seq::<Seq<char>>::empty(),
    };
    let mut out = match args {
        Some(a) => a,
        None => Vec::new(),
    };
    let ghost start = strings_view(out@);
    assert(start =~= a0);
    let flags: [&'static str; 5] = [
        "--no-sandbox",
        "--disable-dev-shm-usage",
        "--disable-gpu",
        "--disable-web-security",
        "--disable-features=IsolateOrigins,site-per-process",
    ];
    assert(flags@.map_values(|f: &'static str| f@) =~= ci_flags());
    let mut i: usize = 0;
    while i < 5
        invariant
            i <= 5,
            flags@.map_values(|f: &'static str| f@) == ci_flags(),
            strings_view(out@) == add_missing(start, ci_flags().subrange(0, i as int)),
        decreases 5 - i,
    {
        let ghost prefix = ci_flags().subrange(0, i + 1);
        assert(prefix.drop_last() =~= ci_flags().subrange(0, i as int));
        assert(prefix.last() == flags@[i as int]@);
        let f = flags[i];
        if !contains_string(&out, f) {
            let ghost before = out@;
            out.push(owned(f));
            assert(strings_view(out@) =~= strings_view(before).push(f@));
        }
        i = i + 1;
    }
    assert(ci_flags().subrange(0, 5) =~= ci_flags());
    out
}

/// After the flags are added, every flag is present and the caller's
/// arguments are still the leading ones.
pub proof fn lemma_ci_flags_present(args: Seq<Seq<char>>, flags: Seq<Seq<char>>)
    ensures
        forall|i: int| 0 <= i < flags.len() ==> add_missing(args, flags).contains(#[trigger] flags[i]),
        add_missing(args, flags).len() >= args.len(),
        add_missing(args, flags).subrange(0, args.len() as int) == args,
    decreases flags.len(),
{
    if flags.len() > 0 {
        let init = flags.drop_last();
        lemma_ci_flags_present(args, init);
        let before = add_missing(args, init);
        assert forall|i: int| 0 <= i < flags.len() implies add_missing(args, flags).contains(
            #[trigger] flags[i],
        ) by {
            if i < flags.len() - 1 {
                assert(init[i] == flags[i]);
                assert(before.contains(init[i]));
                if !before.contains(flags.last()) {
                    let k = choose|k: int| 0 <= k < before.len() && before[k] == init[i];
                    assert(before.push(flags.last())[k] == flags[i]);
                }
            } else {
                if !before.contains(flags.last()) {
                    assert(before.push(flags.last())[before.len() as int] == flags.last());
                }
            }
        }
        if !before.contains(flags.last()) {
            assert(before.push(flags.last()).subrange(0, args.len() as int) =~= before.subrange(
                0,
                args.len() as int,
            ));
        }
    } else {
        assert(args.subrange(0, args.len() as int) =~= args);
    }
}

} // verus!
