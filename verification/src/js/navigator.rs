use vstd::prelude::*;

verus! {

/// Name under which the browser presents itself.
pub const APP_NAME: &'static str = "Leebra";

/// Name of the layout/script engine.
pub const APP_ENGINE: &'static str = "LE";

/// Version of the browser.
pub const APP_VERSION: &'static str = "0.1.0";

/// The locale used when the system names none.
pub const DEFAULT_LOCALE: &'static str = "en_US";

/// The build identifier that the browser reports.
pub const BUILD_ID: &'static str = "(none)";

/// The user-agent string: name, `/`, version, a space, engine.
pub open spec fn user_agent_spec() -> Seq<char> {
    APP_NAME@ + "/"@ + APP_VERSION@ + " "@ + APP_ENGINE@
}

/// Wraps `sys_locale::get_locale`: the locale that the system names, if it
/// names one. It depends on the environment, so nothing is claimed of it.
#[verifier::external_body]
fn system_locale() -> (locale: Option<String>)
{
    sys_locale::get_locale()
}

/// Wraps `num_cpus::get`. The contract claims only what its documentation
/// promises: at least one.
#[verifier::external_body]
fn logical_cpu_count() -> (count: usize)
    ensures
        count >= 1,
{
    num_cpus::get()
}

/// The properties of the `navigator` object.
pub struct NavigatorInfo {
    pub app_code_name: String,
    pub app_name: String,
    pub app_version: String,
    pub cookie_enabled: bool,
    pub hardware_concurrency: usize,
    pub language: String,
    pub languages: Vec<String>,
    pub build_id: String,
    pub user_agent: String,
}

/// The language that the navigator reports: the system's locale, or
/// `en_US` when it names none.
pub open spec fn language_of(locale: Option<Seq<char>>) -> Seq<char> {
    match locale {
        Some(l) => l,
        None => DEFAULT_LOCALE@,
    }
}

impl NavigatorInfo {
    /// The navigator's properties for a system locale and a number of logical
    /// processors.
    pub open spec fn describes(self, locale: Option<Seq<char>>, cpus: usize) -> bool {
        &&& self.app_code_name@ == APP_NAME@
        &&& self.app_name@ == APP_NAME@
        &&& self.app_version@ == APP_VERSION@
        &&& !self.cookie_enabled
        &&& self.hardware_concurrency == cpus
        &&& self.language@ == language_of(locale)
        &&& self.languages@.len() == 2
        &&& self.languages@[0]@ == DEFAULT_LOCALE@
        &&& self.languages@[1]@ == "en"@
        &&& self.build_id@ == BUILD_ID@
        &&& self.user_agent@ == user_agent_spec()
    }
}

/// The `navigator` object of the JavaScript environment.
pub struct Navigator;

impl Navigator {
    /// The navigator's properties, given the system's locale (if it names one)
    /// and the number of logical processors.
    pub fn properties(locale: Option<String>, cpus: usize) -> (info: NavigatorInfo)
        ensures
            info.describes(locale.deep_view(), cpus),
    {
        let language = match locale {
            Some(l) => l,
            None => String::from_str(DEFAULT_LOCALE),
        };
        let mut languages: Vec<String> = Vec::new();
        languages.push(String::from_str(DEFAULT_LOCALE));
        languages.push(String::from_str("en"));
        NavigatorInfo {
            app_code_name: String::from_str(APP_NAME),
            app_name: String::from_str(APP_NAME),
            app_version: String::from_str(APP_VERSION),
            cookie_enabled: false,
            hardware_concurrency: cpus,
            language,
            languages,
            build_id: String::from_str(BUILD_ID),
            user_agent: Navigator::get_user_agent(),
        }
    }

    /// The navigator's properties on this system: whatever locale the system
    /// names, and at least one processor.
    pub fn current() -> (info: NavigatorInfo)
        ensures
            exists|locale: Option<Seq<char>>, cpus: usize| cpus >= 1 && info.describes(locale, cpus),
    {
        let locale = system_locale();
        let cpus = logical_cpu_count();
        let ghost view_locale = locale.deep_view();
        let info = Navigator::properties(locale, cpus);
        assert(cpus >= 1 && info.describes(view_locale, cpus));
        info
    }

    /// Builds the user agent by concatenating its parts in order.
    pub fn get_user_agent() -> (user_agent: String)
        ensures
            user_agent@ == user_agent_spec(),
    {
        let mut user_agent: String = String::new();
        let parts: [&str; 5] = [APP_NAME, "/", APP_VERSION, " ", APP_ENGINE];
        let ghost expected: Seq<Seq<char>> = seq![APP_NAME@, "/"@, APP_VERSION@, " "@, APP_ENGINE@];
        let mut i: usize = 0;
        while i < 5
            invariant
                0 <= i <= 5,
                parts@.len() == 5,
                expected.len() == 5,
                forall|k: int| 0 <= k < 5 ==> #[trigger] parts@[k]@ == expected[k],
                user_agent@ == concat_parts(expected, i as int),
            decreases 5 - i,
        {
            user_agent.append(parts[i]);
            i = i + 1;
        }
        assert(concat_parts(expected, 5) == user_agent_spec()) by {
            reveal_with_fuel(concat_parts, 6);
        }
        user_agent
    }
}

/// The concatenation of the first `n` parts.
pub open spec fn concat_parts(parts: Seq<Seq<char>>, n: int) -> Seq<char>
    decreases n,
{
    if n <= 0 {
        Seq::empty()
    } else {
        concat_parts(parts, n - 1) + parts[n - 1]
    }
}

} // verus!
