use vstd::prelude::*;
use crate::error::Error;
use crate::uri_loader::WebviewUriLoader;

verus! {

/// Decides whether a navigation may go ahead, given the URL and whether the
/// navigation happens in the main frame: any function of that shape is one.
pub trait NavCallback: Fn(String, bool) -> bool {}

impl<T: Fn(String, bool) -> bool> NavCallback for T {}

/// Data that all web contexts share regardless of platform.
pub struct WebContextData<C> {
    data_directory: Option<String>,
    nav_callback: Option<C>,
}

impl<C> WebContextData<C> {
    pub closed spec fn spec_data_directory(&self) -> Option<Seq<char>> {
        match self.data_directory {
            Some(d) => Some(d@),
            None => None,
        }
    }

    pub closed spec fn spec_nav_callback(&self) -> Option<C> {
        self.nav_callback
    }

    /// Data for a context with the given data directory and no navigation callback.
    pub fn new(data_directory: Option<String>) -> (data: Self)
        ensures
            data.spec_data_directory() == (match data_directory {
                Some(d) => Some(d@),
                None => None::<Seq<char>>,
            }),
            data.spec_nav_callback() is None,
    {
        WebContextData { data_directory, nav_callback: None }
    }

    /// The data directory the context was created with.
    pub fn data_directory(&self) -> (d: Option<&String>)
        ensures
            match d {
                Some(s) => self.spec_data_directory() == Some(s@),
                None => self.spec_data_directory() is None,
            },
    {
        match &self.data_directory {
            Some(d) => Some(d),
            None => None,
        }
    }

    /// The navigation callback, if one was set.
    pub fn nav_callback(&self) -> (c: Option<&C>)
        ensures
            match c {
                Some(cb) => self.spec_nav_callback() == Some(*cb),
                None => self.spec_nav_callback() is None,
            },
    {
        match &self.nav_callback {
            Some(c) => Some(c),
            None => None,
        }
    }

    /// Sets the navigation callback, replacing any earlier one.
    pub fn set_nav_callback(&mut self, callback: C)
        ensures
            final(self).spec_nav_callback() == Some(callback),
            final(self).spec_data_directory() == old(self).spec_data_directory(),
    {
        self.nav_callback = Some(callback);
    }
}

impl<C> Default for WebContextData<C> {
    fn default() -> (data: Self)
        ensures
            data.spec_data_directory() is None,
            data.spec_nav_callback() is None,
    {
        WebContextData { data_directory: None, nav_callback: None }
    }
}

/// Whether a navigation may go ahead: the callback decides, and with no callback
/// every navigation is allowed.
pub fn navigation_allowed<C: NavCallback>(callback: Option<&C>, url: String, main_frame: bool) -> (allow: bool)
    requires
        callback matches Some(c) ==> call_requires(*c, (url, main_frame)),
    ensures
        callback matches Some(c) ==> call_ensures(*c, (url, main_frame), allow),
        callback is None ==> allow,
{
    match callback {
        Some(c) => c(url, main_frame),
        None => true,
    }
}

/// `base` joined with the relative component `part`, as a path: a separator is
/// put between them unless `base` is empty or already ends with one.
pub open spec fn join_path(base: Seq<char>, part: Seq<char>) -> Seq<char> {
    if base.len() == 0 || base.last() == '/' {
        base + part
    } else {
        base + seq!['/'] + part
    }
}

/// Joins the relative component `part` to the path `base`.
pub fn join(base: &str, part: &str) -> (joined: String)
    ensures
        joined@ == join_path(base@, part@),
{
    let mut joined = String::from_str(base);
    let n = base.unicode_len();
    if n > 0 && base.get_char(n - 1) != '/' {
        let sep = "/";
        proof {
            reveal_strlit("/");
        }
        joined.append(sep);
    }
    joined.append(part);
    proof {
        if base@.len() > 0 && base@.last() != '/' {
            assert(joined@ =~= base@ + seq!['/'] + part@);
        }
    }
    joined
}

/// Where a context keeps its website data under its data directory.
pub struct WebsiteDataPaths {
    pub local_storage: String,
    pub indexeddb: String,
    pub cookies: String,
}

/// The local storage, IndexedDB and cookie locations under a data directory.
pub fn website_data_paths(data_directory: &str) -> (paths: WebsiteDataPaths)
    ensures
        paths.local_storage@ == join_path(data_directory@, "localstorage"@),
        paths.indexeddb@ == join_path(join_path(data_directory@, "databases"@), "indexeddb"@),
        paths.cookies@ == join_path(data_directory@, "cookies"@),
{
    let local_storage = join(data_directory, "localstorage");
    let databases = join(data_directory, "databases");
    let indexeddb = join(databases.as_str(), "indexeddb");
    let cookies = join(data_directory, "cookies");
    WebsiteDataPaths { local_storage, indexeddb, cookies }
}

/// A context shared by several webviews: its data, the custom protocols
/// registered on it, the queue of webviews waiting to load a URI, and whether it
/// allows automation.
pub struct WebContext<C, W> {
    data: WebContextData<C>,
    registered_protocols: Vec<String>,
    webview_uri_loader: WebviewUriLoader<W>,
    automation: bool,
    app_info_available: bool,
}

/// The names in a list of protocol names, as a set.
pub open spec fn name_set(names: Seq<String>) -> Set<Seq<char>> {
    Set::new(|n: Seq<char>| exists|i: int| 0 <= i < names.len() && (#[trigger] names[i])@ == n)
}

impl<C, W> WebContext<C, W> {
    pub closed spec fn protocols(&self) -> Set<Seq<char>> {
        name_set(self.registered_protocols@)
    }

    pub closed spec fn spec_data(&self) -> WebContextData<C> {
        self.data
    }

    pub closed spec fn spec_loader(&self) -> WebviewUriLoader<W> {
        self.webview_uri_loader
    }

    pub closed spec fn spec_automation(&self) -> bool {
        self.automation
    }

    /// Whether the application description is still there to give to an
    /// automation session.
    pub closed spec fn spec_app_info_available(&self) -> bool {
        self.app_info_available
    }

    /// A context with the given data directory, no custom protocol, an idle URI
    /// loader, and automation not allowed.
    pub fn new(data_directory: Option<String>) -> (ctx: Self)
        ensures
            ctx.spec_data().spec_data_directory() == (match data_directory {
                Some(d) => Some(d@),
                None => None::<Seq<char>>,
            }),
            ctx.spec_data().spec_nav_callback() is None,
            ctx.protocols() == Set::<Seq<char>>::empty(),
            !ctx.spec_loader().spec_locked(),
            ctx.spec_loader().spec_queue().len() == 0,
            !ctx.spec_automation(),
            ctx.spec_app_info_available(),
    {
        let ctx = WebContext {
            data: WebContextData::new(data_directory),
            registered_protocols: Vec::new(),
            webview_uri_loader: WebviewUriLoader::new(),
            automation: false,
            app_info_available: true,
        };
        assert(ctx.protocols() =~= Set::<Seq<char>>::empty());
        ctx
    }

    /// The data directory the context was created with.
    pub fn data_directory(&self) -> (d: Option<&String>)
        ensures
            match d {
                Some(s) => self.spec_data().spec_data_directory() == Some(s@),
                None => self.spec_data().spec_data_directory() is None,
            },
    {
        self.data.data_directory()
    }

    /// Sets the navigation callback of the context.
    pub fn set_navigation_callback(&mut self, callback: C)
        ensures
            final(self).spec_data().spec_nav_callback() == Some(callback),
            final(self).spec_data().spec_data_directory() == old(self).spec_data().spec_data_directory(),
            final(self).protocols() == old(self).protocols(),
            final(self).spec_automation() == old(self).spec_automation(),
    {
        self.data.set_nav_callback(callback);
    }

    /// The navigation callback of the context, if one was set.
    pub fn navigation_callback(&self) -> (c: Option<&C>)
        ensures
            match c {
                Some(cb) => self.spec_data().spec_nav_callback() == Some(*cb),
                None => self.spec_data().spec_nav_callback() is None,
            },
    {
        self.data.nav_callback()
    }

    /// Whether the context allows automation.
    pub fn allows_automation(&self) -> (b: bool)
        ensures
            b == self.spec_automation(),
    {
        self.automation
    }

    /// Sets whether the context allows automation.
    pub fn set_allows_automation(&mut self, flag: bool)
        ensures
            final(self).spec_automation() == flag,
            final(self).protocols() == old(self).protocols(),
            final(self).spec_data() == old(self).spec_data(),
            final(self).spec_loader() == old(self).spec_loader(),
    {
        self.automation = flag;
    }

    /// Whether a webview should be handed to the automation session: only while
    /// automation is allowed, and only the first time, since the application
    /// description is given away with it.
    pub fn register_automation(&mut self) -> (connect: bool)
        ensures
            connect == (old(self).spec_automation() && old(self).spec_app_info_available()),
            final(self).spec_app_info_available() == (old(self).spec_app_info_available() && !connect),
            final(self).spec_automation() == old(self).spec_automation(),
            final(self).protocols() == old(self).protocols(),
    {
        if self.automation && self.app_info_available {
            self.app_info_available = false;
            true
        } else {
            false
        }
    }

    /// Whether a protocol of this name is registered.
    pub fn is_registered(&self, name: &str) -> (b: bool)
        ensures
            b == self.protocols().contains(name@),
    {
        let mut i: usize = 0;
        while i < self.registered_protocols.len()
            invariant
                i <= self.registered_protocols.len(),
                forall|j: int| 0 <= j < i ==> (#[trigger] self.registered_protocols@[j])@ != name@,
            decreases self.registered_protocols.len() - i,
        {
            if crate::text::str_eq(self.registered_protocols[i].as_str(), name) {
                assert(self.registered_protocols@[i as int]@ == name@);
                return true;
            }
            i = i + 1;
        }
        proof {
            if self.protocols().contains(name@) {
                let j = choose|j: int|
                    0 <= j < self.registered_protocols@.len() && (#[trigger] self.registered_protocols@[j])@ == name@;
                assert(self.registered_protocols@[j]@ != name@);
            }
        }
        false
    }

    /// Claims a protocol name for a registration: records it as registered, and
    /// tells whether it is new (false when it already was registered).
    pub fn claim_uri_scheme(&mut self, name: &str) -> (inserted: bool)
        ensures
            inserted == !old(self).protocols().contains(name@),
            final(self).protocols() == old(self).protocols().insert(name@),
            final(self).spec_data() == old(self).spec_data(),
            final(self).spec_loader() == old(self).spec_loader(),
            final(self).spec_automation() == old(self).spec_automation(),
    {
        if self.is_registered(name) {
            assert(old(self).protocols().insert(name@) =~= old(self).protocols());
            false
        } else {
            let ghost before = self.registered_protocols@;
            self.registered_protocols.push(String::from_str(name));
            assert(self.protocols() =~= old(self).protocols().insert(name@)) by {
                assert forall|n: Seq<char>| self.protocols().contains(n) implies old(self).protocols().insert(name@).contains(n) by {
                    let j = choose|j: int| 0 <= j < self.registered_protocols@.len() && (#[trigger] self.registered_protocols@[j])@ == n;
                    if j < before.len() {
                        assert(before[j]@ == n);
                    }
                }
                assert forall|n: Seq<char>| old(self).protocols().insert(name@).contains(n) implies self.protocols().contains(n) by {
                    if n == name@ {
                        assert(self.registered_protocols@[before.len() as int]@ == n);
                    } else {
                        let j = choose|j: int| 0 <= j < before.len() && (#[trigger] before[j])@ == n;
                        assert(self.registered_protocols@[j]@ == n);
                    }
                }
            }
            true
        }
    }

    /// Registers a custom protocol: the platform registration `register` is made
    /// first, whatever came before; if it fails its error is returned and the name
    /// is not recorded. Otherwise the name is recorded, and a name that was
    /// already registered gives `DuplicateCustomProtocol` (its handler was still
    /// submitted).
    pub fn register_uri_scheme<F: FnOnce(&str) -> Result<(), Error>>(&mut self, name: &str, register: F) -> (r: Result<(), Error>)
        requires
            call_requires(register, (name,)),
        ensures
            exists|platform: Result<(), Error>| {
                &&& call_ensures(register, (name,), platform)
                &&& match platform {
                    Err(e) => r == Err::<(), Error>(e) && final(self).protocols() == old(self).protocols(),
                    Ok(()) => {
                        &&& final(self).protocols() == old(self).protocols().insert(name@)
                        &&& old(self).protocols().contains(name@) ==> (r matches Err(Error::DuplicateCustomProtocol(s)) && s@ == name@)
                        &&& !old(self).protocols().contains(name@) ==> r is Ok
                    },
                }
            },
            final(self).spec_data() == old(self).spec_data(),
            final(self).spec_automation() == old(self).spec_automation(),
    {
        let platform = register(name);
        match platform {
            Err(e) => Err(e),
            Ok(()) => {
                if self.claim_uri_scheme(name) {
                    Ok(())
                } else {
                    Err(Error::DuplicateCustomProtocol(String::from_str(name)))
                }
            },
        }
    }

    /// Registers a custom protocol only if no protocol of that name is registered:
    /// a duplicate gives `DuplicateCustomProtocol` and the platform registration
    /// `register` is not made, so its handler is never submitted (`register`
    /// need not even be callable then). Otherwise the name is recorded and the
    /// result of the platform registration is returned.
    pub fn try_register_uri_scheme<F: FnOnce(&str) -> Result<(), Error>>(&mut self, name: &str, register: F) -> (r: Result<(), Error>)
        requires
            !old(self).protocols().contains(name@) ==> call_requires(register, (name,)),
        ensures
            old(self).protocols().contains(name@) ==> {
                &&& r matches Err(Error::DuplicateCustomProtocol(s)) && s@ == name@
                &&& final(self).protocols() == old(self).protocols()
            },
            !old(self).protocols().contains(name@) ==> {
                &&& final(self).protocols() == old(self).protocols().insert(name@)
                &&& call_ensures(register, (name,), r)
            },
            final(self).spec_data() == old(self).spec_data(),
            final(self).spec_automation() == old(self).spec_automation(),
    {
        if self.claim_uri_scheme(name) {
            register(name)
        } else {
            Err(Error::DuplicateCustomProtocol(String::from_str(name)))
        }
    }

    /// Puts a webview in the queue of those waiting to load a URI.
    pub fn queue_load_uri(&mut self, webview: W, url: String)
        ensures
            final(self).spec_loader().spec_queue() == old(self).spec_loader().spec_queue().push((webview, url@)),
            final(self).spec_loader().spec_locked() == old(self).spec_loader().spec_locked(),
            final(self).protocols() == old(self).protocols(),
    {
        self.webview_uri_loader.push(webview, url);
    }

    /// Starts the next queued load unless one is under way; see
    /// [`WebviewUriLoader::flush`].
    pub fn flush_queue_loader(&mut self) -> (next: Option<(W, String)>)
        ensures
            WebviewUriLoader::flushed(old(self).spec_loader(), final(self).spec_loader(), next),
            final(self).protocols() == old(self).protocols(),
    {
        self.webview_uri_loader.flush()
    }

    /// The load under way has finished: the queue is unlocked and the next load,
    /// if any, is started; see [`WebviewUriLoader::load_finished`].
    pub fn load_finished(&mut self) -> (next: Option<(W, String)>)
        ensures
            WebviewUriLoader::flushed(old(self).spec_loader().unlocked(), final(self).spec_loader(), next),
            final(self).protocols() == old(self).protocols(),
    {
        self.webview_uri_loader.load_finished()
    }
}

impl<C, W> Default for WebContext<C, W> {
    /// A context with no data directory.
    fn default() -> (ctx: Self)
        ensures
            ctx.spec_data().spec_data_directory() is None,
            ctx.spec_data().spec_nav_callback() is None,
            ctx.protocols() == Set::<Seq<char>>::empty(),
            !ctx.spec_loader().spec_locked(),
            ctx.spec_loader().spec_queue().len() == 0,
            !ctx.spec_automation(),
    {
        WebContext::new(None)
    }
}

} // verus!
