//! Application-wide settings: the route, the locale, the theme and the query
//! mode of each connection.
use vstd::prelude::*;
use vstd::string::*;
use crate::text::text_eq;

verus! {

/// The page the application shows.
#[derive(Debug, Clone, Copy, PartialEq, Eq, Structural)]
pub enum Route {
    Home,
    Editor,
}

/// How a filter matches keys.
#[derive(Debug, Clone, Copy, PartialEq, Eq, Structural)]
pub enum QueryMode {
    All,
    Prefix,
    Exact,
}

/// The symbol that stands for a query mode.
pub open spec fn mode_symbol(m: QueryMode) -> Seq<char> {
    match m {
        QueryMode::Prefix => "^"@,
        QueryMode::Exact => "="@,
        QueryMode::All => "*"@,
    }
}

/// The query mode a symbol stands for; any other text means `All`.
pub open spec fn mode_of_symbol(s: Seq<char>) -> QueryMode {
    if s == "^"@ {
        QueryMode::Prefix
    } else if s == "="@ {
        QueryMode::Exact
    } else {
        QueryMode::All
    }
}

impl QueryMode {
    /// The mode's symbol.
    pub fn to_string(&self) -> (r: String)
        ensures
            r@ == mode_symbol(*self),
    {
        match self {
            QueryMode::Prefix => String::from_str("^"),
            QueryMode::Exact => String::from_str("="),
            QueryMode::All => String::from_str("*"),
        }
    }

    /// The mode a symbol stands for; any other text gives `All`.
    pub fn from_str(s: &str) -> (r: QueryMode)
        ensures
            r == mode_of_symbol(s@),
    {
        if text_eq(s, "^") {
            QueryMode::Prefix
        } else if text_eq(s, "=") {
            QueryMode::Exact
        } else {
            QueryMode::All
        }
    }
}

/// A light or a dark theme.
#[derive(Debug, Clone, Copy, PartialEq, Eq, Structural)]
pub enum ThemeMode {
    Light,
    Dark,
}

/// The theme a stored name stands for.
pub open spec fn theme_of_name(n: Option<Seq<char>>) -> Option<ThemeMode> {
    match n {
        Some(s) => if s == "light"@ {
            Some(ThemeMode::Light)
        } else if s == "dark"@ {
            Some(ThemeMode::Dark)
        } else {
            None
        },
        None => None,
    }
}

/// The view of an optional string.
pub open spec fn opt_view(s: Option<String>) -> Option<Seq<char>> {
    match s {
        Some(t) => Some(t@),
        None => None,
    }
}

/// The mode stored for `server` in `v`: the last entry for it wins.
pub open spec fn mode_entry(v: Seq<(String, String)>, server: Seq<char>) -> Option<Seq<char>>
    decreases v.len(),
{
    if v.len() == 0 {
        None
    } else if v.last().0@ == server {
        Some(v.last().1@)
    } else {
        mode_entry(v.drop_last(), server)
    }
}

proof fn lemma_mode_entry_update(v: Seq<(String, String)>, i: int, e: (String, String), k: Seq<char>)
    requires
        0 <= i < v.len(),
        v[i].0@ == e.0@,
    ensures
        k != e.0@ ==> mode_entry(v.update(i, e), k) == mode_entry(v, k),
        k == e.0@ && (forall|j: int| i < j < v.len() ==> #[trigger] v[j].0@ != k) ==> mode_entry(
            v.update(i, e),
            k,
        ) == Some(e.1@),
    decreases v.len(),
{
    let w = v.update(i, e);
    if i < v.len() - 1 {
        assert(w.drop_last() =~= v.drop_last().update(i, e));
        lemma_mode_entry_update(v.drop_last(), i, e, k);
        if k == e.0@ && (forall|j: int| i < j < v.len() ==> #[trigger] v[j].0@ != k) {
            assert(v[v.len() - 1].0@ != k);
            assert(forall|j: int| i < j < v.drop_last().len() ==> #[trigger] v.drop_last()[j] == v[j]);
        }
    } else {
        assert(w.drop_last() =~= v.drop_last());
    }
}

/// The application's settings.
pub struct ZedisAppState {
    pub route: Route,
    pub locale: Option<String>,
    /// The stored theme name, `light` or `dark`.
    pub theme: Option<String>,
    /// The query mode symbol of each connection.
    pub query_modes: Vec<(String, String)>,
}

impl ZedisAppState {
    pub fn new() -> (r: ZedisAppState)
        ensures
            r.route == Route::Home,
            r.locale is None,
            r.theme is None,
            r.query_modes@.len() == 0,
    {
        ZedisAppState { route: Route::Home, locale: None, theme: None, query_modes: Vec::new() }
    }

    pub fn route(&self) -> (r: Route)
        ensures
            r == self.route,
    {
        self.route
    }

    pub fn go_to(&mut self, route: Route)
        ensures
            final(self).route == route,
            final(self).locale == old(self).locale,
            final(self).theme == old(self).theme,
            final(self).query_modes == old(self).query_modes,
    {
        if self.route != route {
            self.route = route;
        }
    }

    pub fn set_locale(&mut self, locale: String)
        ensures
            final(self).locale == Some(locale),
            final(self).route == old(self).route,
            final(self).theme == old(self).theme,
            final(self).query_modes == old(self).query_modes,
    {
        self.locale = Some(locale);
    }

    /// The locale, `en` when none is set.
    pub fn locale(&self) -> (r: String)
        ensures
            r@ == match self.locale {
                Some(l) => l@,
                None => "en"@,
            },
    {
        match &self.locale {
            Some(l) => l.clone(),
            None => String::from_str("en"),
        }
    }

    /// The theme the stored name stands for.
    pub fn theme(&self) -> (r: Option<ThemeMode>)
        ensures
            r == theme_of_name(opt_view(self.theme)),
    {
        match &self.theme {
            Some(t) => if text_eq(t.as_str(), "light") {
                Some(ThemeMode::Light)
            } else if text_eq(t.as_str(), "dark") {
                Some(ThemeMode::Dark)
            } else {
                None
            },
            None => None,
        }
    }

    /// Stores the theme by name; `None` follows the system.
    pub fn set_theme(&mut self, theme: Option<ThemeMode>)
        ensures
            theme_of_name(opt_view(final(self).theme)) == theme,
            final(self).route == old(self).route,
            final(self).locale == old(self).locale,
            final(self).query_modes == old(self).query_modes,
    {
        proof {
            reveal_strlit("light");
            reveal_strlit("dark");
            assert("dark"@[0] != "light"@[0]);
        }
        match theme {
            Some(ThemeMode::Light) => {
                self.theme = Some(String::from_str("light"));
            },
            Some(ThemeMode::Dark) => {
                self.theme = Some(String::from_str("dark"));
            },
            None => {
                self.theme = None;
            },
        }
    }

    /// Stores the query mode of `server`.
    pub fn add_query_mode(&mut self, server: String, mode: QueryMode)
        ensures
            mode_entry(final(self).query_modes@, server@) == Some(mode_symbol(mode)),
            forall|k: Seq<char>|
                k != server@ ==> #[trigger] mode_entry(final(self).query_modes@, k) == mode_entry(
                    old(self).query_modes@,
                    k,
                ),
            final(self).route == old(self).route,
            final(self).locale == old(self).locale,
            final(self).theme == old(self).theme,
    {
        let symbol = mode.to_string();
        let mut i: usize = self.query_modes.len();
        while i > 0
            invariant
                i <= self.query_modes@.len(),
                *self == *old(self),
                symbol@ == mode_symbol(mode),
                forall|j: int| i <= j < self.query_modes@.len() ==> #[trigger] self.query_modes@[j].0@
                    != server@,
            decreases i,
        {
            if text_eq(self.query_modes[i - 1].0.as_str(), server.as_str()) {
                let e = (server, symbol);
                proof {
                    assert(forall|j: int| (i - 1) < j < self.query_modes@.len() ==> #[trigger] self.query_modes@[j].0@ != e.0@);
                    lemma_mode_entry_update(self.query_modes@, i - 1, e, e.0@);
                    assert(mode_entry(self.query_modes@.update(i - 1, e), e.0@) == Some(e.1@));
                    assert(e.1@ == mode_symbol(mode));
                    assert forall|k: Seq<char>| k != e.0@ implies #[trigger] mode_entry(
                        self.query_modes@.update(i - 1, e),
                        k,
                    ) == mode_entry(self.query_modes@, k) by {
                        lemma_mode_entry_update(self.query_modes@, i - 1, e, k);
                    }
                }
                self.query_modes.set(i - 1, e);
                return;
            }
            i = i - 1;
        }
        let ghost before = self.query_modes@;
        self.query_modes.push((server, symbol));
        proof {
            assert(self.query_modes@.drop_last() =~= before);
        }
    }

    /// The query mode of `server`, `All` when none is stored.
    pub fn query_mode(&self, server: &str) -> (r: QueryMode)
        ensures
            r == match mode_entry(self.query_modes@, server@) {
                Some(s) => mode_of_symbol(s),
                None => QueryMode::All,
            },
    {
        let mut i: usize = self.query_modes.len();
        assert(self.query_modes@.subrange(0, i as int) =~= self.query_modes@);
        while i > 0
            invariant
                i <= self.query_modes@.len(),
                mode_entry(self.query_modes@, server@) == mode_entry(
                    self.query_modes@.subrange(0, i as int),
                    server@,
                ),
            decreases i,
        {
            let ghost pre = self.query_modes@.subrange(0, i as int);
            assert(pre.drop_last() =~= self.query_modes@.subrange(0, i - 1));
            if text_eq(self.query_modes[i - 1].0.as_str(), server) {
                return QueryMode::from_str(self.query_modes[i - 1].1.as_str());
            }
            i = i - 1;
        }
        QueryMode::All
    }
}

/// The side bar of the main window. It holds no state.
pub struct ZedisSidebar {}

impl ZedisSidebar {
    pub fn new() -> (r: ZedisSidebar) {
        ZedisSidebar {}
    }
}

} // verus!
