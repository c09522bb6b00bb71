//! The options with which the application framework is started.

use vstd::prelude::*;

verus! {

/// Whether a text can be handed to the native layer as a C string: it holds no
/// NUL character.
pub open spec fn c_safe(text: Seq<char>) -> bool {
    !text.contains('\0')
}

/// Whether `text` can be handed to the native layer as a C string.
pub fn is_c_safe(text: &str) -> (safe: bool)
    ensures
        safe == c_safe(text@),
{
    broadcast use vstd::string::axiom_spec_iter;

    let mut safe = true;
    for c in it: text.chars()
        invariant
            it.seq() == text@,
            safe == !text@.take(it.index() as int).contains('\0'),
    {
        assert(text@.take(it.index() + 1) =~= text@.take(it.index() as int).push(c));
        if c == '\0' {
            safe = false;
            assert(text@.take(it.index() + 1)[it.index() as int] == '\0');
        } else {
            assert(!text@.take(it.index() as int).push(c).contains('\0') == safe) by {
                if text@.take(it.index() as int).push(c).contains('\0') {
                    let i = choose|i: int|
                        0 <= i < it.index() + 1 && text@.take(it.index() as int).push(c)[i]
                            == '\0';
                    assert(text@.take(it.index() as int)[i] == '\0');
                }
                if text@.take(it.index() as int).contains('\0') {
                    let i = choose|i: int|
                        0 <= i < it.index() && text@.take(it.index() as int)[i] == '\0';
                    assert(text@.take(it.index() as int).push(c)[i] == '\0');
                }
            }
        }
    }
    assert(text@.take(text@.len() as int) =~= text@);
    safe
}

/// What a set of options holds, as a mathematical value. An option that was not
/// set is left to the native layer's default.
pub struct AppOptsView {
    pub name: Option<Seq<char>>,
    pub config_file: Option<Seq<char>>,
    pub reactor_mask: Option<Seq<char>>,
    pub print_level: Option<i32>,
    pub main_core: Option<i32>,
}

impl AppOptsView {
    /// Options of which none is set.
    pub open spec fn unset() -> AppOptsView {
        AppOptsView {
            name: None,
            config_file: None,
            reactor_mask: None,
            print_level: None,
            main_core: None,
        }
    }

    /// Whether every text among the options can be handed over as a C string.
    pub open spec fn wf(self) -> bool {
        &&& self.name matches Some(text) ==> c_safe(text)
        &&& self.config_file matches Some(text) ==> c_safe(text)
        &&& self.reactor_mask matches Some(text) ==> c_safe(text)
    }
}

#[derive(Clone, Debug)]
pub struct AppOpts {
    name: Option<String>,
    config_file: Option<String>,
    reactor_mask: Option<String>,
    print_level: Option<i32>,
    main_core: Option<i32>,
}

/// The text of an option, if the option is set.
pub open spec fn text_of(option: Option<String>) -> Option<Seq<char>> {
    match option {
        Some(text) => Some(text@),
        None => None,
    }
}

impl AppOpts {
    pub closed spec fn view(&self) -> AppOptsView {
        AppOptsView {
            name: text_of(self.name),
            config_file: text_of(self.config_file),
            reactor_mask: text_of(self.reactor_mask),
            print_level: self.print_level,
            main_core: self.main_core,
        }
    }

    /// Options of which none is set.
    pub fn new() -> (opts: AppOpts)
        ensures
            opts@ == AppOptsView::unset(),
            opts@.wf(),
    {
        AppOpts { name: None, config_file: None, reactor_mask: None, print_level: None, main_core: None }
    }

    /// Sets the name of the application. A name with a NUL character in it
    /// cannot reach the native layer: it is a programming error, excluded here.
    pub fn name(self, name: &str) -> (opts: AppOpts)
        requires
            self@.wf(),
            c_safe(name@),
        ensures
            opts@ == (AppOptsView { name: Some(name@), ..self@ }),
            opts@.wf(),
    {
        let mut opts = self;
        opts.name = Some(name.to_owned());
        opts
    }

    /// Sets the path of the configuration file.
    pub fn config_file(self, config_file: &str) -> (opts: AppOpts)
        requires
            self@.wf(),
            c_safe(config_file@),
        ensures
            opts@ == (AppOptsView { config_file: Some(config_file@), ..self@ }),
            opts@.wf(),
    {
        let mut opts = self;
        opts.config_file = Some(config_file.to_owned());
        opts
    }

    /// Sets the mask of the cores on which reactors run.
    pub fn reactor_mask(self, mask: &str) -> (opts: AppOpts)
        requires
            self@.wf(),
            c_safe(mask@),
        ensures
            opts@ == (AppOptsView { reactor_mask: Some(mask@), ..self@ }),
            opts@.wf(),
    {
        let mut opts = self;
        opts.reactor_mask = Some(mask.to_owned());
        opts
    }

    /// Sets the level from which log messages are printed.
    pub fn set_log(self, log_level: i32) -> (opts: AppOpts)
        ensures
            opts@ == (AppOptsView { print_level: Some(log_level), ..self@ }),
    {
        let mut opts = self;
        opts.print_level = Some(log_level);
        opts
    }

    /// Sets the core on which the first reactor runs.
    pub fn main_core(self, main_core: i32) -> (opts: AppOpts)
        ensures
            opts@ == (AppOptsView { main_core: Some(main_core), ..self@ }),
    {
        let mut opts = self;
        opts.main_core = Some(main_core);
        opts
    }

    pub fn get_name(&self) -> (name: Option<&String>)
        ensures
            text_of_ref(name) == self@.name,
    {
        self.name.as_ref()
    }

    pub fn get_config_file(&self) -> (config_file: Option<&String>)
        ensures
            text_of_ref(config_file) == self@.config_file,
    {
        self.config_file.as_ref()
    }

    pub fn get_reactor_mask(&self) -> (mask: Option<&String>)
        ensures
            text_of_ref(mask) == self@.reactor_mask,
    {
        self.reactor_mask.as_ref()
    }

    pub fn get_print_level(&self) -> (level: Option<i32>)
        ensures
            level == self@.print_level,
    {
        self.print_level
    }

    pub fn get_main_core(&self) -> (core: Option<i32>)
        ensures
            core == self@.main_core,
    {
        self.main_core
    }
}

/// The text of an option that is handed out by reference.
pub open spec fn text_of_ref(option: Option<&String>) -> Option<Seq<char>> {
    match option {
        Some(text) => Some(text@),
        None => None,
    }
}

} // verus!
