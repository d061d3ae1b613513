//! Typed application configuration.

use crate::environment::{key_path, variable_key_path};
use crate::error::AppError;
use crate::layered::{
    empty_figment, escapes_cleanly, extract_port, extract_text, figment_layers, first_mark,
    merge_document, merge_entry, merge_group, open_run, port_at, quote_or_backslash,
    reads_nested, reads_quotes, text_at, within_budget, Layer, KEY_STACK, LEVEL_STACK,
    STACK_BUDGET,
};
use crate::utils::{chars_of, count_char, occurrences, wide};
use vstd::prelude::*;
use vstd::string::{to_string_from_display_ensures, StringExecFns};

verus! {

/// Database configuration.
#[derive(Debug)]
pub struct DatabaseConfig {
    /// Database connection URL.
    pub url: String,
}

/// API configuration.
#[derive(Debug)]
pub struct ApiConfig {
    /// API port.
    pub port: u16,
}

/// Application configuration.
#[derive(Debug)]
pub struct AppConfig {
    /// Database configuration.
    pub database: DatabaseConfig,
    /// API configuration.
    pub api: ApiConfig,
}

/// What a configuration holds, as mathematical values.
pub struct ConfigView {
    pub url: Seq<char>,
    pub port: int,
}

impl View for AppConfig {
    type V = ConfigView;

    open spec fn view(&self) -> ConfigView {
        ConfigView { url: self.database.url@, port: self.api.port as int }
    }
}

/// The key path of the database URL.
pub open spec fn url_path() -> Seq<char> {
    "database.url"@
}

/// The key path of the API port.
pub open spec fn port_path() -> Seq<char> {
    "api.port"@
}

/// The layers that environment variables make, in the order of `vars`: one
/// for each variable whose name sets a key path, the others left out.
pub open spec fn variable_layers(vars: Seq<(String, String)>) -> Seq<Layer>
    decreases vars.len(),
{
    if vars.len() == 0 {
        Seq::empty()
    } else {
        let before = variable_layers(vars.drop_last());
        match key_path(vars.last().0@) {
            Some(path) => before.push(Layer::Entry(path, vars.last().1@)),
            None => before,
        }
    }
}

/// The first character of `value` after the white space at its start.
pub fn first_mark_of(value: &str) -> (mark: Option<char>)
    ensures
        mark == first_mark(value@),
{
    broadcast use vstd::string::axiom_spec_iter;

    let mut mark: Option<char> = None;
    assert(value@.skip(0) =~= value@);
    for c in iter: value.chars()
        invariant
            iter.seq() == value@,
            mark is None ==> first_mark(value@) == first_mark(value@.skip(iter.index() as int)),
            mark is Some ==> mark == first_mark(value@),
    {
        if mark.is_none() {
            let code: u32 = c as u32;
            assert(value@.skip(iter.index() as int).skip(1) =~= value@.skip(iter.index() + 1));
            if !(code == 0x20 || code == 0x09 || code == 0x0A || code == 0x0C || code == 0x0D) {
                mark = Some(c);
            }
        }
    }
    mark
}

/// Tells whether a value is read as an array or a table.
pub fn is_nested(value: &str) -> (answer: bool)
    ensures
        answer == reads_nested(value@),
{
    match first_mark_of(value) {
        Some(c) => c == '[' || c == '{',
        None => false,
    }
}

/// Tells whether a text in double quotes can come to be read in a value.
pub fn has_quotes(value: &str) -> (answer: bool)
    ensures
        answer == reads_quotes(value@),
{
    match first_mark_of(value) {
        Some(c) => {
            let code: u32 = c as u32;
            c == '[' || c == '{' || code == 0x22
        },
        None => false,
    }
}

/// Tells whether an entry stays within the stack budget.
pub fn fits_budget(key: &str, value: &str) -> (answer: bool)
    ensures
        answer == within_budget(key@, value@),
{
    let dots = count_char(key, '.');
    if dots >= STACK_BUDGET {
        return false;
    }
    let mut opened: usize = 0;
    if is_nested(value) {
        let brackets = count_char(value, '[');
        let braces = count_char(value, '{');
        if brackets > STACK_BUDGET || braces > STACK_BUDGET {
            return false;
        }
        opened = brackets + braces;
    }
    KEY_STACK * (dots + 1) + LEVEL_STACK * opened <= STACK_BUDGET
}

/// Tells whether a value escapes cleanly.
pub fn is_clean(value: &str) -> (answer: bool)
    ensures
        answer == escapes_cleanly(value@),
{
    if !has_quotes(value) {
        return true;
    }
    let chars = chars_of(value);
    let n = chars.len();
    let mut armed = false;
    let mut marked = false;
    let ghost mut seen = false;
    let ghost mut last: int = 0;
    let ghost mut mark: int = 0;
    let mut j: usize = 0;
    while j < n
        invariant
            chars@ == value@,
            reads_quotes(value@),
            n == chars@.len(),
            j <= n,
            seen ==> 0 <= last < j && quote_or_backslash(chars@[last]) && forall|k: int|
                last < k < j ==> !quote_or_backslash(#[trigger] chars@[k]),
            !seen ==> forall|k: int| 0 <= k < j ==> !quote_or_backslash(#[trigger] chars@[k]),
            armed == (seen && chars@[last] as u32 == 0x22),
            marked ==> armed && last < mark < j && wide(chars@[mark]),
            armed && !marked ==> forall|b: int| last < b < j ==> !wide(#[trigger] chars@[b]),
            forall|a: int, b: int, c: int|
                #![trigger open_run(chars@, a, c), wide(chars@[b])]
                0 <= a < b < c < j && chars@[a] as u32 == 0x22 && chars@[c] as u32 == 0x5C
                    && open_run(chars@, a, c) ==> !wide(chars@[b]),
        decreases n - j,
    {
        let code: u32 = chars[j] as u32;
        if code == 0x5C {
            if marked {
                assert(open_run(value@, last, j as int));
                assert(wide(value@[mark]));
                return false;
            }
            proof {
                assert forall|a: int, b: int, c: int|
                    0 <= a < b < c < j + 1 && chars@[a] as u32 == 0x22 && chars@[c] as u32 == 0x5C
                        && #[trigger] open_run(chars@, a, c) implies !#[trigger] wide(
                    chars@[b],
                ) by {
                    if c == j {
                        if seen && a < last {
                            assert(quote_or_backslash(chars@[last]));
                        }
                    }
                }
                seen = true;
                last = j as int;
            }
            armed = false;
            marked = false;
        } else if code == 0x22 {
            proof {
                seen = true;
                last = j as int;
            }
            armed = true;
            marked = false;
        } else if armed && code >= 128 && !marked {
            marked = true;
            proof {
                mark = j as int;
            }
        }
        j += 1;
    }
    true
}

/// What a load says of a variable that would take too much stack.
pub open spec fn over_budget() -> Seq<char> {
    "an environment variable needs too much stack to be read"@
}

/// What a load says of a variable whose value does not escape cleanly.
pub open spec fn unreadable() -> Seq<char> {
    "an environment variable holds an escape that cannot be read"@
}

/// Why a variable is refused, if it is: one that sets a key path must stay
/// within the stack budget and escape cleanly; any other is passed over.
pub open spec fn refusal(var: (String, String)) -> Option<Seq<char>> {
    match key_path(var.0@) {
        Some(path) => if !within_budget(path, var.1@) {
            Some(over_budget())
        } else if !escapes_cleanly(var.1@) {
            Some(unreadable())
        } else {
            None
        },
        None => None,
    }
}

/// Whether no variable is refused.
pub open spec fn variables_accepted(vars: Seq<(String, String)>) -> bool {
    forall|i: int| 0 <= i < vars.len() ==> refusal(#[trigger] vars[i]) is None
}

/// All layers of a load: the file first, where there is one, then the
/// environment variables as one group, so that a variable replaces what the
/// file says.
pub open spec fn config_layers(file: Option<Seq<char>>, vars: Seq<(String, String)>) -> Seq<
    Layer,
> {
    let variables = Layer::Group(variable_layers(vars));
    match file {
        Some(text) => seq![Layer::Document(text), variables],
        None => seq![variables],
    }
}

/// The configuration that layers hold: both values, or none at all.
pub open spec fn config_in(layers: Seq<Layer>) -> Option<ConfigView> {
    match (text_at(layers, url_path(), usize::BITS), port_at(layers, port_path())) {
        (Some(url), Some(port)) => Some(ConfigView { url, port: port as int }),
        _ => None,
    }
}

/// What `assemble` returns for the two values as they were found.
pub open spec fn assembled(
    url: Result<String, AppError>,
    port: Result<u16, AppError>,
    out: Result<AppConfig, AppError>,
) -> bool {
    match (url, port) {
        (Ok(u), Ok(p)) => out matches Ok(config) && config@ == (ConfigView {
            url: u@,
            port: p as int,
        }),
        (Err(e), _) => out == Err::<AppConfig, AppError>(e),
        (Ok(_), Err(e)) => out == Err::<AppConfig, AppError>(e),
    }
}

/// What `load` returns for a file and environment variables. Where no
/// variable is refused: the configuration where the layers hold both
/// values, else a configuration error with the text that the failure of
/// the merge or of the extraction is displayed as. Where one is refused: a
/// configuration error that says why the first such variable is.
pub open spec fn loaded(
    file: Option<Seq<char>>,
    vars: Seq<(String, String)>,
    out: Result<AppConfig, AppError>,
) -> bool {
    if variables_accepted(vars) {
        match config_in(config_layers(file, vars)) {
            Some(view) => out matches Ok(config) && config@ == view,
            None => out matches Err(AppError::Config(message)) && exists|error: figment::Error|
                #[trigger] to_string_from_display_ensures::<figment::Error>(&error, message),
        }
    } else {
        out matches Err(AppError::Config(message)) && exists|i: int|
            0 <= i < vars.len() && #[trigger] refusal(vars[i]) == Some(message@) && forall|k: int|
                0 <= k < i ==> refusal(#[trigger] vars[k]) is None
    }
}

impl AppConfig {
    /// Puts the two values together once both were looked up: the
    /// configuration where both were found, else the failure of the URL, or
    /// of the port where only that one failed.
    pub fn assemble(url: Result<String, AppError>, port: Result<u16, AppError>) -> (out: Result<
        AppConfig,
        AppError,
    >)
        ensures
            assembled(url, port, out),
    {
        match url {
            Ok(u) => match port {
                Ok(p) => Ok(AppConfig::from_parts(u, p)),
                Err(e) => Err(e),
            },
            Err(e) => Err(e),
        }
    }

    /// Loads the configuration from the text of the configuration file,
    /// where there is one, and the environment variables, each a name and a
    /// value. A variable replaces what the file says at the same key path,
    /// and among the variables a later one replaces an earlier one. A
    /// variable of the application that figment cannot be given, because it
    /// needs too much stack or does not escape cleanly, fails the load.
    pub fn load(file: Option<&str>, vars: &Vec<(String, String)>) -> (out: Result<
        AppConfig,
        AppError,
    >)
        ensures
            loaded(
                match file {
                    Some(text) => Some(text@),
                    None => None,
                },
                vars@,
                out,
            ),
    {
        let mut variables = empty_figment();
        let mut i: usize = 0;
        while i < vars.len()
            invariant
                i <= vars@.len(),
                figment_layers(variables) == variable_layers(vars@.take(i as int)),
                forall|k: int| 0 <= k < i ==> refusal(#[trigger] vars@[k]) is None,
            decreases vars@.len() - i,
        {
            let var = &vars[i];
            if let Some(path) = variable_key_path(var.0.as_str()) {
                if !fits_budget(path.as_str(), var.1.as_str()) {
                    let message = String::from_str("an environment variable needs too much stack to be read");
                    assert(refusal(vars@[i as int]) == Some(message@));
                    return Err(AppError::Config(message));
                }
                if !is_clean(var.1.as_str()) {
                    let message = String::from_str(
                        "an environment variable holds an escape that cannot be read",
                    );
                    assert(refusal(vars@[i as int]) == Some(message@));
                    return Err(AppError::Config(message));
                }
                variables = merge_entry(variables, path.as_str(), var.1.as_str());
            }
            i += 1;
            assert(vars@.take(i as int).drop_last() =~= vars@.take(i - 1));
        }
        assert(vars@.take(i as int) =~= vars@);
        let mut figment = empty_figment();
        if let Some(text) = file {
            figment = merge_document(figment, text);
        }
        figment = merge_group(figment, variables);
        proof {
            let text = match file {
                Some(text) => Some(text@),
                None => None,
            };
            assert(figment_layers(figment) =~= config_layers(text, vars@));
            reveal_strlit("database.url");
            reveal_strlit("api.port");
        }
        let url = match extract_text(&figment, "database.url") {
            Ok(url) => Ok(url),
            Err(error) => Err(AppError::from_config(error)),
        };
        let port = match extract_port(&figment, "api.port") {
            Ok(port) => Ok(port),
            Err(error) => Err(AppError::from_config(error)),
        };
        AppConfig::assemble(url, port)
    }

    /// Builds a configuration from its two values.
    pub fn from_parts(url: String, port: u16) -> (config: AppConfig)
        ensures
            config@ == (ConfigView { url: url@, port: port as int }),
    {
        AppConfig { database: DatabaseConfig { url }, api: ApiConfig { port } }
    }
}

/// Loading twice from the same file and the same variables gives the same
/// outcome: both loads fail, or both give configurations that are equal
/// field for field.
pub proof fn load_is_repeatable(
    file: Option<Seq<char>>,
    vars: Seq<(String, String)>,
    first: Result<AppConfig, AppError>,
    second: Result<AppConfig, AppError>,
)
    requires
        loaded(file, vars, first),
        loaded(file, vars, second),
    ensures
        (first is Ok) == (second is Ok),
        first matches Ok(a) ==> (second matches Ok(b) ==> a@ == b@),
{
}

/// A load gives a configuration exactly when no variable is refused and the
/// layers hold both values, and then it holds those two; when either is
/// missing or of the wrong kind the load fails with a configuration error
/// and gives no configuration.
pub proof fn load_is_all_or_nothing(
    file: Option<Seq<char>>,
    vars: Seq<(String, String)>,
    out: Result<AppConfig, AppError>,
)
    requires
        loaded(file, vars, out),
    ensures
        (out is Ok) == (variables_accepted(vars) && text_at(
            config_layers(file, vars),
            url_path(),
            usize::BITS,
        ) is Some && port_at(config_layers(file, vars), port_path()) is Some),
        out matches Ok(config) ==> {
            &&& text_at(config_layers(file, vars), url_path(), usize::BITS) == Some(config@.url)
            &&& port_at(config_layers(file, vars), port_path()) matches Some(port) && port
                == config@.port
        },
        out matches Err(error) ==> error is Config,
{
}

/// A variable that sets one of the two values is never refused for a
/// value that starts, after white space, with neither a bracket, a brace
/// nor a double quote, whatever else the value holds.
pub proof fn plain_values_are_accepted(name: String, value: String)
    requires
        key_path(name@) == Some(url_path()) || key_path(name@) == Some(port_path()),
        !reads_quotes(value@),
    ensures
        refusal((name, value)) is None,
{
    reveal_strlit("database.url");
    reveal_strlit("api.port");
    reveal_with_fuel(occurrences, 14);
    assert(occurrences(url_path(), '.') == 1);
    assert(occurrences(port_path(), '.') == 1);
}

/// Variables that set no key path leave the load as it is: only the
/// variables of the application count.
pub proof fn other_variables_are_ignored(vars: Seq<(String, String)>, name: String, value: String)
    requires
        key_path(name@) is None,
    ensures
        variable_layers(vars.push((name, value))) == variable_layers(vars),
{
    assert(vars.push((name, value)).drop_last() =~= vars);
}

} // verus!
