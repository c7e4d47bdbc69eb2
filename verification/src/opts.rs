//! The option parser: a flat settings value populated from command-line
//! flags. Token-level argument parsing is done by the getopts crate behind
//! trusted wrappers; everything from a parse result to the settings fields
//! is verified.

use vstd::prelude::*;
use vstd::string::StrSliceExecFns;
use vstd::string::StringExecFns;
use vstd::assert_sets_equal;

verus! {

broadcast use vstd::string::group_string_axioms;

/// The command line did not conform to the defined options.
#[derive(Clone, Copy, Debug, PartialEq, Eq, Structural)]
pub enum CliError {
    BadUsage,
}

#[verifier::external_type_specification]
#[verifier::external_body]
pub struct ExOptions(getopts::Options);

#[verifier::external_type_specification]
#[verifier::external_body]
pub struct ExMatches(getopts::Matches);

#[verifier::external_type_specification]
#[verifier::external_body]
pub struct ExFail(getopts::Fail);

/// The names (short and long) under which an option set defines options.
pub uninterp spec fn opts_names(o: getopts::Options) -> Set<Seq<char>>;

/// The names of the defined options that take an argument; the other
/// defined names are bare flags.
pub uninterp spec fn opts_value_names(o: getopts::Options) -> Set<Seq<char>>;

/// Every option group of the set carries a one-ASCII-character short name
/// beside a longer long name, so that the set can be parsed against and
/// its usage rendered without panicking.
pub uninterp spec fn opts_parseable(o: getopts::Options) -> bool;

/// The names under which a parse result defines options.
pub uninterp spec fn matches_names(m: getopts::Matches) -> Set<Seq<char>>;

/// The names of the options that were matched at least once.
pub uninterp spec fn matches_given(m: getopts::Matches) -> Set<Seq<char>>;

/// The argument supplied to each option whose first match carried one.
pub uninterp spec fn matches_value(m: getopts::Matches) -> Map<Seq<char>, Seq<char>>;

/// Whether getopts accepts the arguments after the first (the program
/// name) against this option set. The outcome is a function of the option
/// set and the arguments alone.
pub uninterp spec fn getopts_outcome(o: getopts::Options, args: Seq<String>) -> bool;

/// The names matched at least once when getopts accepts the arguments
/// after the first against this option set.
pub uninterp spec fn getopts_given(o: getopts::Options, args: Seq<String>) -> Set<Seq<char>>;

/// The first supplied argument of each option, when getopts accepts the
/// arguments after the first against this option set.
pub uninterp spec fn getopts_values(o: getopts::Options, args: Seq<String>) -> Map<
    Seq<char>,
    Seq<char>,
>;

/// The usage text getopts renders for this option set under this brief
/// line: a function of the two alone.
pub uninterp spec fn usage_of(o: getopts::Options, brief: Seq<char>) -> Seq<char>;

/// Relies on getopts::Options::new: a blank set defines no name.
#[verifier::external_body]
fn getopts_new() -> (o: getopts::Options)
    ensures
        opts_names(o) == Set::<Seq<char>>::empty(),
        opts_value_names(o) == Set::<Seq<char>>::empty(),
        opts_parseable(o),
{
    getopts::Options::new()
}

/// Relies on getopts::Options::optflag: registers an argument-less option
/// under its short and long names. Ill-formed names make it panic and are
/// excluded.
#[verifier::external_body]
fn getopts_optflag(o: &mut getopts::Options, short: &str, long: &str, desc: &str)
    requires
        short.is_ascii(),
        long.is_ascii(),
        short@.len() == 1,
        long@.len() >= 2,
        opts_parseable(*old(o)),
    ensures
        opts_names(*final(o)) == opts_names(*old(o)).insert(short@).insert(long@),
        opts_value_names(*final(o)) == opts_value_names(*old(o)),
        opts_parseable(*final(o)),
{
    o.optflag(short, long, desc);
}

/// Relies on getopts::Options::optopt: registers an option that takes an
/// argument under its short and long names. Ill-formed names make it panic
/// and are excluded.
#[verifier::external_body]
fn getopts_optopt(o: &mut getopts::Options, short: &str, long: &str, desc: &str, hint: &str)
    requires
        short.is_ascii(),
        long.is_ascii(),
        short@.len() == 1,
        long@.len() >= 2,
        opts_parseable(*old(o)),
    ensures
        opts_names(*final(o)) == opts_names(*old(o)).insert(short@).insert(long@),
        opts_value_names(*final(o)) == opts_value_names(*old(o)).insert(short@).insert(long@),
        opts_parseable(*final(o)),
{
    o.optopt(short, long, desc, hint);
}

/// Relies on getopts::Options::parse, applied to the arguments after the
/// first (the program name): the outcome is a function of the option set
/// and the arguments alone, and a successful parse is matched against
/// exactly the defined names, with the named given-set and value-map.
#[verifier::external_body]
fn getopts_parse(o: &getopts::Options, args: &Vec<String>) -> (r: Result<
    getopts::Matches,
    getopts::Fail,
>)
    requires
        args@.len() >= 1,
        opts_parseable(*o),
    ensures
        r is Ok <==> getopts_outcome(*o, args@),
        r is Ok ==> matches_names(r->Ok_0) == opts_names(*o),
        r is Ok ==> matches_given(r->Ok_0) == getopts_given(*o, args@),
        r is Ok ==> matches_value(r->Ok_0) == getopts_values(*o, args@),
{
    o.parse(&args[1..])
}

/// Relies on getopts::Matches::opt_present: whether a defined option was
/// matched at least once. An undefined name makes it panic and is
/// excluded.
#[verifier::external_body]
fn getopts_present(m: &getopts::Matches, name: &str) -> (r: bool)
    requires
        matches_names(*m).contains(name@),
    ensures
        r == matches_given(*m).contains(name@),
{
    m.opt_present(name)
}

/// Relies on getopts::Matches::opt_str: the argument supplied to the first
/// match of a defined option. An undefined name makes it panic and is
/// excluded.
#[verifier::external_body]
fn getopts_opt_str(m: &getopts::Matches, name: &str) -> (r: Option<String>)
    requires
        matches_names(*m).contains(name@),
    ensures
        match r {
            Some(v) => matches_value(*m).dom().contains(name@) && v@ == matches_value(*m)[name@],
            None => !matches_value(*m).dom().contains(name@),
        },
{
    m.opt_str(name)
}

/// Relies on getopts::Options::usage: renders the option descriptions
/// under the given brief line, a function of the two alone. A short name
/// wider than one character makes it panic and is excluded.
#[verifier::external_body]
fn getopts_usage(o: &getopts::Options, brief: &str) -> (r: String)
    requires
        opts_parseable(*o),
    ensures
        r@ == usage_of(*o, brief@),
{
    o.usage(brief)
}

/// The names under which the program's eleven options are defined.
pub open spec fn cli_names() -> Set<Seq<char>> {
    set![
        "k"@, "apikey"@,
        "t"@, "ticker"@,
        "r"@, "res"@,
        "i"@, "infile"@,
        "o"@, "outfile"@,
        "e"@, "exchange"@,
        "s"@, "stock"@,
        "q"@, "quote"@,
        "l"@, "list"@,
        "v"@, "verbose"@,
        "h"@, "help"@,
    ]
}

/// The names under which the six value-taking options are defined; the
/// remaining five options are bare flags.
pub open spec fn cli_value_names() -> Set<Seq<char>> {
    set![
        "k"@, "apikey"@,
        "t"@, "ticker"@,
        "r"@, "res"@,
        "i"@, "infile"@,
        "o"@, "outfile"@,
        "e"@, "exchange"@,
    ]
}

/// The value an option contributes to the settings: its argument when the
/// value map carries one, the `none` default otherwise.
pub open spec fn value_or_default(values: Map<Seq<char>, Seq<char>>, name: Seq<char>) -> Seq<
    char,
> {
    if values.dom().contains(name) {
        values[name]
    } else {
        "none"@
    }
}

/// The value an option contributes to the settings under a parse result.
pub open spec fn opt_value_or_none(m: getopts::Matches, name: Seq<char>) -> Seq<char> {
    value_or_default(matches_value(m), name)
}

/// The settings of the program: one field per option, defaulted to `none`
/// or `false` where a flag is absent.
pub struct OptsSet {
    pub api_key: String,
    pub ticker: String,
    pub exchange: String,
    pub resolution: String,
    pub in_file: String,
    pub out_file: String,
    pub is_stock: bool,
    pub is_quote: bool,
    pub is_list: bool,
    pub is_verbose: bool,
    pub is_help: bool,
    pub opts: getopts::Options,
}

/// The settings fields agree with a given-set and a value-map: each
/// boolean flag is its presence in the given-set, each string option its
/// argument in the value-map or the `none` default.
pub open spec fn settings_of(
    s: OptsSet,
    given: Set<Seq<char>>,
    values: Map<Seq<char>, Seq<char>>,
) -> bool {
    &&& s.is_help == given.contains("h"@)
    &&& s.is_list == given.contains("l"@)
    &&& s.is_stock == given.contains("s"@)
    &&& s.is_quote == given.contains("q"@)
    &&& s.is_verbose == given.contains("v"@)
    &&& s.api_key@ == value_or_default(values, "k"@)
    &&& s.ticker@ == value_or_default(values, "t"@)
    &&& s.resolution@ == value_or_default(values, "r"@)
    &&& s.in_file@ == value_or_default(values, "i"@)
    &&& s.out_file@ == value_or_default(values, "o"@)
    &&& s.exchange@ == value_or_default(values, "e"@)
}

/// The settings fields agree with a parse result.
pub open spec fn settings_match(s: OptsSet, m: getopts::Matches) -> bool {
    settings_of(s, matches_given(m), matches_value(m))
}

impl OptsSet {
    /// Every setting starts at its documented default: `none` for the
    /// string options, `false` for the flags, and no option defined yet.
    pub fn new() -> (r: OptsSet)
        ensures
            r.api_key@ == "none"@,
            r.ticker@ == "none"@,
            r.exchange@ == "none"@,
            r.resolution@ == "none"@,
            r.in_file@ == "none"@,
            r.out_file@ == "none"@,
            !r.is_stock,
            !r.is_quote,
            !r.is_list,
            !r.is_verbose,
            !r.is_help,
            opts_names(r.opts) == Set::<Seq<char>>::empty(),
            opts_value_names(r.opts) == Set::<Seq<char>>::empty(),
            opts_parseable(r.opts),
    {
        OptsSet {
            api_key: none_string(),
            ticker: none_string(),
            exchange: none_string(),
            resolution: none_string(),
            in_file: none_string(),
            out_file: none_string(),
            is_stock: false,
            is_quote: false,
            is_list: false,
            is_verbose: false,
            is_help: false,
            opts: getopts_new(),
        }
    }

    /// Defines the program's eleven options: six that take an argument and
    /// five bare flags.
    pub fn set(&mut self)
        requires
            opts_parseable(old(self).opts),
        ensures
            opts_names(final(self).opts) == opts_names(old(self).opts) + cli_names(),
            opts_value_names(final(self).opts) == opts_value_names(old(self).opts)
                + cli_value_names(),
            opts_parseable(final(self).opts),
            final(self).api_key == old(self).api_key,
            final(self).ticker == old(self).ticker,
            final(self).exchange == old(self).exchange,
            final(self).resolution == old(self).resolution,
            final(self).in_file == old(self).in_file,
            final(self).out_file == old(self).out_file,
            final(self).is_stock == old(self).is_stock,
            final(self).is_quote == old(self).is_quote,
            final(self).is_list == old(self).is_list,
            final(self).is_verbose == old(self).is_verbose,
            final(self).is_help == old(self).is_help,
    {
        proof {
            reveal_strlit("k");
            reveal_strlit("apikey");
            reveal_strlit("t");
            reveal_strlit("ticker");
            reveal_strlit("r");
            reveal_strlit("res");
            reveal_strlit("i");
            reveal_strlit("infile");
            reveal_strlit("o");
            reveal_strlit("outfile");
            reveal_strlit("e");
            reveal_strlit("exchange");
            reveal_strlit("s");
            reveal_strlit("stock");
            reveal_strlit("q");
            reveal_strlit("quote");
            reveal_strlit("l");
            reveal_strlit("list");
            reveal_strlit("v");
            reveal_strlit("verbose");
            reveal_strlit("h");
            reveal_strlit("help");
        }
        getopts_optopt(
            &mut self.opts,
            "k",
            "apikey",
            "(required) specifies your api key",
            "APIKEY",
        );
        getopts_optopt(
            &mut self.opts,
            "t",
            "ticker",
            "(required unless using -i) specifies the ticker to be used (e.g. TSLA for stock | BINANCE:BTCUSDT for crypto)",
            "TCKR",
        );
        getopts_optopt(
            &mut self.opts,
            "r",
            "res",
            "(required unless using -q) specifies the resolution for candles (1, 5, 15, 30, 60, D, W, M)",
            "RSLTN",
        );
        getopts_optopt(
            &mut self.opts,
            "i",
            "infile",
            "(required unless using -t) specifies an input file containing comma-separated tickers",
            "INFL",
        );
        getopts_optopt(
            &mut self.opts,
            "o",
            "outfile",
            "(optional) specifies an output file to save comma-separated outputs",
            "OUTFL",
        );
        getopts_optopt(
            &mut self.opts,
            "e",
            "exchange",
            "(optional - crypto) specifies the exchange from which to look up tickers/symbols from (use with -l/--list)",
            "EXCHNG",
        );
        getopts_optflag(
            &mut self.opts,
            "s",
            "stock",
            "specifies that the program must look up stock (with -s/--stock) in stead of crypto (default)",
        );
        getopts_optflag(
            &mut self.opts,
            "q",
            "quote",
            "specifies that the program must look up a quote (with -q/--quote) in stead of candles (default)",
        );
        getopts_optflag(
            &mut self.opts,
            "l",
            "list",
            "displays available crypto exchanges or ticker/symbols (see -e/--exchange)",
        );
        getopts_optflag(
            &mut self.opts,
            "v",
            "verbose",
            "displays more information on the terminal duing outputs",
        );
        getopts_optflag(&mut self.opts, "h", "help", "displays this help menu");
        proof {
            assert_sets_equal!(
                opts_names(self.opts) == opts_names(old(self).opts) + cli_names()
            );
            assert_sets_equal!(
                opts_value_names(self.opts) == opts_value_names(old(self).opts)
                    + cli_value_names()
            );
        }
    }

    /// Fills every settings field from a parse result: a flag becomes its
    /// presence, an option its argument or the `none` default.
    pub fn apply_matches(&mut self, m: &getopts::Matches)
        requires
            cli_names().subset_of(matches_names(*m)),
        ensures
            settings_match(*final(self), *m),
            final(self).opts == old(self).opts,
    {
        proof {
            reveal_strlit("h");
            reveal_strlit("l");
            reveal_strlit("s");
            reveal_strlit("q");
            reveal_strlit("v");
            reveal_strlit("k");
            reveal_strlit("t");
            reveal_strlit("r");
            reveal_strlit("i");
            reveal_strlit("o");
            reveal_strlit("e");
        }
        self.is_help = getopts_present(m, "h");
        self.is_list = getopts_present(m, "l");
        self.is_stock = getopts_present(m, "s");
        self.is_quote = getopts_present(m, "q");
        self.is_verbose = getopts_present(m, "v");
        self.api_key = opt_string_or_none(m, "k");
        self.ticker = opt_string_or_none(m, "t");
        self.resolution = opt_string_or_none(m, "r");
        self.in_file = opt_string_or_none(m, "i");
        self.out_file = opt_string_or_none(m, "o");
        self.exchange = opt_string_or_none(m, "e");
    }

    /// Parses the program's arguments (the first being the program name)
    /// and fills the settings from the result, or reports a usage error
    /// and leaves the settings unchanged. Success comes exactly when
    /// getopts accepts the arguments, and the fields then hold the parse's
    /// given-set and value-map, defaults filled in.
    pub fn parse(&mut self, args: &Vec<String>) -> (r: Result<(), CliError>)
        requires
            args@.len() >= 1,
            opts_parseable(old(self).opts),
            cli_names().subset_of(opts_names(old(self).opts)),
        ensures
            final(self).opts == old(self).opts,
            match r {
                Ok(()) => {
                    &&& getopts_outcome(old(self).opts, args@)
                    &&& settings_of(
                        *final(self),
                        getopts_given(old(self).opts, args@),
                        getopts_values(old(self).opts, args@),
                    )
                },
                Err(e) => {
                    &&& e == CliError::BadUsage
                    &&& *final(self) == *old(self)
                    &&& !getopts_outcome(old(self).opts, args@)
                },
            },
    {
        match getopts_parse(&self.opts, args) {
            Ok(m) => {
                self.apply_matches(&m);
                Ok(())
            },
            Err(_) => Err(CliError::BadUsage),
        }
    }

    /// The usage text: the option descriptions as getopts renders them,
    /// under a brief line naming the program.
    pub fn usage_text(&self, program: &str) -> (r: String)
        requires
            opts_parseable(self.opts),
        ensures
            r@ == usage_of(self.opts, "Usage: "@ + program@ + " [options]"@),
    {
        let mut brief = String::new();
        brief.append("Usage: ");
        brief.append(program);
        brief.append(" [options]");
        getopts_usage(&self.opts, brief.as_str())
    }

    pub fn api_key(&self) -> (r: &str)
        ensures
            r@ == self.api_key@,
    {
        self.api_key.as_str()
    }

    pub fn ticker(&self) -> (r: &str)
        ensures
            r@ == self.ticker@,
    {
        self.ticker.as_str()
    }

    pub fn exchange(&self) -> (r: &str)
        ensures
            r@ == self.exchange@,
    {
        self.exchange.as_str()
    }

    pub fn resolution(&self) -> (r: &str)
        ensures
            r@ == self.resolution@,
    {
        self.resolution.as_str()
    }

    pub fn in_file(&self) -> (r: &str)
        ensures
            r@ == self.in_file@,
    {
        self.in_file.as_str()
    }

    pub fn out_file(&self) -> (r: &str)
        ensures
            r@ == self.out_file@,
    {
        self.out_file.as_str()
    }

    pub fn is_stock(&self) -> (r: bool)
        ensures
            r == self.is_stock,
    {
        self.is_stock
    }

    pub fn is_quote(&self) -> (r: bool)
        ensures
            r == self.is_quote,
    {
        self.is_quote
    }

    pub fn is_list(&self) -> (r: bool)
        ensures
            r == self.is_list,
    {
        self.is_list
    }

    pub fn is_verbose(&self) -> (r: bool)
        ensures
            r == self.is_verbose,
    {
        self.is_verbose
    }

    pub fn is_help(&self) -> (r: bool)
        ensures
            r == self.is_help,
    {
        self.is_help
    }
}

/// Whatever combination of flags was given, an absent option leaves its
/// documented default in the settings: `false` for a flag, `none` for a
/// string option.
pub proof fn lemma_absent_options_default(s: OptsSet, m: getopts::Matches)
    requires
        settings_match(s, m),
    ensures
        !matches_given(m).contains("h"@) ==> !s.is_help,
        !matches_given(m).contains("l"@) ==> !s.is_list,
        !matches_given(m).contains("s"@) ==> !s.is_stock,
        !matches_given(m).contains("q"@) ==> !s.is_quote,
        !matches_given(m).contains("v"@) ==> !s.is_verbose,
        !matches_value(m).dom().contains("k"@) ==> s.api_key@ == "none"@,
        !matches_value(m).dom().contains("t"@) ==> s.ticker@ == "none"@,
        !matches_value(m).dom().contains("r"@) ==> s.resolution@ == "none"@,
        !matches_value(m).dom().contains("i"@) ==> s.in_file@ == "none"@,
        !matches_value(m).dom().contains("o"@) ==> s.out_file@ == "none"@,
        !matches_value(m).dom().contains("e"@) ==> s.exchange@ == "none"@,
{
}

/// The string `none`, the default of every unset string option.
fn none_string() -> (r: String)
    ensures
        r@ == "none"@,
{
    let mut s = String::new();
    s.append("none");
    s
}

/// The argument of a defined option, or the `none` default.
fn opt_string_or_none(m: &getopts::Matches, name: &str) -> (r: String)
    requires
        matches_names(*m).contains(name@),
    ensures
        r@ == opt_value_or_none(*m, name@),
{
    match getopts_opt_str(m, name) {
        Some(v) => v,
        None => none_string(),
    }
}

} // verus!
