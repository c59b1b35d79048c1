//! The dispatcher: one entry point over both engines.
//!
//! In `Light` mode the heuristic engine answers. In `Full` mode the
//! statistical engine answers, and the heuristic one stands in where the
//! statistical one is not set up or gives no record. In `Auto` mode the
//! statistical engine answers where it is confident; otherwise both are
//! asked and the more confident record is returned. A failure is returned
//! only where no engine gave a record.

use vstd::prelude::*;
use crate::error::ZantetsuError;
use crate::fixed::ONE;
use crate::parser::heuristic::{
    HeuristicParser,
    all_patterns_compile,
    heuristic_outcome,
    heuristic_record,
};
use crate::parser::neural::{ModelOutput, NeuralParser, neural_outcome, neural_record};
use crate::types::{ParseMode, ParseResult};
use crate::types::result::ParseRecord;

verus! {

/// The confidence below which the statistical engine is second-guessed,
/// unless configured otherwise: 0.6.
pub const DEFAULT_CONFIDENCE_THRESHOLD: u32 = 600_000;

/// How the dispatcher is to work.
#[derive(Debug, Clone)]
pub struct ParserConfig {
    /// Which engine to use.
    pub mode: ParseMode,
    /// In `Auto` mode, the confidence from which the statistical engine's
    /// record is taken without asking the heuristic engine, in millionths.
    pub confidence_threshold: u32,
    /// Whether a statistical engine is to be set up.
    pub enable_neural: bool,
}

impl Default for ParserConfig {
    fn default() -> (config: Self)
        ensures
            config.mode == ParseMode::Auto,
            config.confidence_threshold == DEFAULT_CONFIDENCE_THRESHOLD,
            config.enable_neural,
    {
        Self {
            mode: ParseMode::Auto,
            confidence_threshold: DEFAULT_CONFIDENCE_THRESHOLD,
            enable_neural: true,
        }
    }
}

/// A threshold brought into the range from 0.0 to 1.0.
pub open spec fn clamped_threshold(threshold: i64) -> u32 {
    if threshold < 0 {
        0
    } else if threshold > ONE {
        ONE
    } else {
        threshold as u32
    }
}

impl ParserConfig {
    /// The default configuration: `Auto` mode, a threshold of 0.6, and the
    /// statistical engine enabled.
    pub fn new() -> (config: Self)
        ensures
            config.mode == ParseMode::Auto,
            config.confidence_threshold == DEFAULT_CONFIDENCE_THRESHOLD,
            config.enable_neural,
    {
        Self {
            mode: ParseMode::Auto,
            confidence_threshold: DEFAULT_CONFIDENCE_THRESHOLD,
            enable_neural: true,
        }
    }

    /// The configuration with another mode.
    pub fn with_mode(self, mode: ParseMode) -> (config: Self)
        ensures
            config.mode == mode,
            config.confidence_threshold == self.confidence_threshold,
            config.enable_neural == self.enable_neural,
    {
        Self {
            mode,
            confidence_threshold: self.confidence_threshold,
            enable_neural: self.enable_neural,
        }
    }

    /// The configuration with another threshold, in millionths. Values
    /// outside the range from 0.0 to 1.0 are brought to its nearer end.
    pub fn with_confidence_threshold(self, threshold: i64) -> (config: Self)
        ensures
            config.mode == self.mode,
            config.confidence_threshold == clamped_threshold(threshold),
            config.confidence_threshold <= ONE,
            config.enable_neural == self.enable_neural,
    {
        let clamped: u32 = if threshold < 0 {
            0
        } else if threshold > ONE as i64 {
            ONE
        } else {
            threshold as u32
        };
        Self { mode: self.mode, confidence_threshold: clamped, enable_neural: self.enable_neural }
    }

    /// The configuration with the statistical engine enabled or disabled.
    pub fn with_neural(self, enabled: bool) -> (config: Self)
        ensures
            config.mode == self.mode,
            config.confidence_threshold == self.confidence_threshold,
            config.enable_neural == enabled,
    {
        Self {
            mode: self.mode,
            confidence_threshold: self.confidence_threshold,
            enable_neural: enabled,
        }
    }
}

/// One of the two engines.
pub ghost enum Engine {
    Statistical,
    Heuristic,
}

/// Whose record `Auto` mode returns, given the record of each engine where
/// it gave one.
///
/// The statistical record is taken if its confidence reaches the threshold.
/// Below the threshold the heuristic record is taken if it is strictly more
/// confident. Where the statistical engine gave no record, the heuristic
/// engine answers, with its record or with its failure.
pub open spec fn auto_choice(
    statistical: Option<ParseRecord>,
    heuristic: Option<ParseRecord>,
    threshold: u32,
) -> Engine {
    match statistical {
        None => Engine::Heuristic,
        Some(n) => if n.confidence >= threshold {
            Engine::Statistical
        } else {
            match heuristic {
                Some(h) => if h.confidence > n.confidence {
                    Engine::Heuristic
                } else {
                    Engine::Statistical
                },
                None => Engine::Statistical,
            }
        },
    }
}

/// Which engine answers in a given mode.
pub open spec fn engine_choice(
    mode: ParseMode,
    has_neural: bool,
    statistical: Option<ParseRecord>,
    heuristic: Option<ParseRecord>,
    threshold: u32,
) -> Engine {
    match mode {
        ParseMode::Light => Engine::Heuristic,
        ParseMode::Full => if has_neural && statistical is Some {
            Engine::Statistical
        } else {
            Engine::Heuristic
        },
        ParseMode::Auto => if has_neural {
            auto_choice(statistical, heuristic, threshold)
        } else {
            Engine::Heuristic
        },
    }
}

/// What the dispatcher returns: the outcome of the engine that answers.
pub open spec fn dispatch_outcome(
    config: ParserConfig,
    has_neural: bool,
    input: Seq<char>,
    run: Result<&ModelOutput, ZantetsuError>,
    result: Result<ParseResult, ZantetsuError>,
) -> bool {
    match engine_choice(
        config.mode,
        has_neural,
        neural_record(input, run),
        heuristic_record(input),
        config.confidence_threshold,
    ) {
        Engine::Statistical => neural_outcome(input, run, result),
        Engine::Heuristic => heuristic_outcome(input, result),
    }
}

/// The record of a result, where it holds one.
pub open spec fn record_of(result: Result<ParseResult, ZantetsuError>) -> Option<ParseRecord> {
    match result {
        Ok(r) => Some(r@),
        Err(_) => None,
    }
}

/// A result with its record marked as the heuristic engine's: the same
/// record but for the mode, and well formed if it was so before.
pub open spec fn marked_light(
    before: Result<ParseResult, ZantetsuError>,
    after: Result<ParseResult, ZantetsuError>,
) -> bool {
    match before {
        Ok(r) => {
            &&& after matches Ok(a) && a@ == (ParseRecord { parse_mode: ParseMode::Light, ..r@ })
            &&& r.wf() ==> after->Ok_0.wf()
        },
        Err(e) => after matches Err(a) && a == e,
    }
}

/// Chooses between the results of the two engines as `Auto` mode does.
///
/// The statistical result is returned as it is where `auto_choice` picks it.
/// Where the heuristic engine is picked because the statistical one failed,
/// its result is returned as it is; where it is picked over a statistical
/// record, its record is returned marked as `Light`.
pub fn arbitrate(
    statistical: Result<ParseResult, ZantetsuError>,
    heuristic: Result<ParseResult, ZantetsuError>,
    threshold: u32,
) -> (result: Result<ParseResult, ZantetsuError>)
    ensures
        match auto_choice(record_of(statistical), record_of(heuristic), threshold) {
            Engine::Statistical => result == statistical,
            Engine::Heuristic => if statistical is Err {
                result == heuristic
            } else {
                marked_light(heuristic, result)
            },
        },
{
    match statistical {
        Ok(n) => {
            if n.confidence >= threshold {
                return Ok(n);
            }
            match heuristic {
                Ok(h) => {
                    if h.confidence > n.confidence {
                        let mut chosen = h;
                        chosen.parse_mode = ParseMode::Light;
                        Ok(chosen)
                    } else {
                        Ok(n)
                    }
                },
                Err(_) => Ok(n),
            }
        },
        Err(_) => heuristic,
    }
}

/// The dispatcher over both engines.
pub struct Parser {
    config: ParserConfig,
    heuristic: HeuristicParser,
    neural: Option<NeuralParser>,
}

impl Parser {
    /// The configuration that the dispatcher was made with.
    pub closed spec fn spec_config(&self) -> ParserConfig {
        self.config
    }

    /// Whether a statistical engine is set up.
    pub closed spec fn spec_has_neural(&self) -> bool {
        self.neural is Some
    }

    /// A dispatcher for the given configuration.
    ///
    /// Fails with `RegexError` exactly if a pattern of the heuristic engine
    /// does not compile. The statistical engine is set up if the
    /// configuration enables it.
    pub fn new(config: ParserConfig) -> (result: Result<Self, ZantetsuError>)
        ensures
            result is Ok <==> all_patterns_compile(),
            result matches Ok(parser) ==> parser.spec_config() == config
                && parser.spec_has_neural() == config.enable_neural,
            result matches Err(e) ==> e is RegexError,
    {
        let heuristic = match HeuristicParser::new() {
            Ok(h) => h,
            Err(e) => return Err(e),
        };
        let neural = if config.enable_neural {
            match NeuralParser::new() {
                Ok(parser) => Some(parser),
                Err(_) => None,
            }
        } else {
            None
        };
        Ok(Self { config, heuristic, neural })
    }

    /// A dispatcher for the default configuration.
    pub fn default() -> (result: Result<Self, ZantetsuError>)
        ensures
            result is Ok <==> all_patterns_compile(),
            result matches Ok(parser) ==> parser.spec_config().mode == ParseMode::Auto
                && parser.spec_config().confidence_threshold == DEFAULT_CONFIDENCE_THRESHOLD
                && parser.spec_has_neural(),
            result matches Err(e) ==> e is RegexError,
    {
        Self::new(ParserConfig::new())
    }

    /// Extracts a record in the configured mode.
    ///
    /// `run` is what the model gave for this input: its output, or the
    /// reason why there is none.
    pub fn parse(&self, input: &str, run: Result<&ModelOutput, ZantetsuError>) -> (result: Result<
        ParseResult,
        ZantetsuError,
    >)
        ensures
            dispatch_outcome(self.spec_config(), self.spec_has_neural(), input@, run, result),
    {
        match self.config.mode {
            ParseMode::Full => self.parse_full(input, run),
            ParseMode::Light => self.parse_light(input),
            ParseMode::Auto => self.parse_auto(input, run),
        }
    }

    /// The statistical engine's record, or the heuristic engine's answer
    /// where there is no such record. A record of the heuristic engine is
    /// marked as `Light`, never as `Full`.
    fn parse_full(&self, input: &str, run: Result<&ModelOutput, ZantetsuError>) -> (result: Result<
        ParseResult,
        ZantetsuError,
    >)
        ensures
            if self.spec_has_neural() && neural_record(input@, run) is Some {
                neural_outcome(input@, run, result)
            } else {
                heuristic_outcome(input@, result)
            },
    {
        if let Some(neural) = &self.neural {
            if let Ok(found) = neural.parse(input, run) {
                return Ok(found);
            }
        }
        match self.heuristic.parse(input) {
            Ok(found) => {
                let mut result = found;
                result.parse_mode = ParseMode::Light;
                Ok(result)
            },
            Err(e) => Err(e),
        }
    }

    /// The heuristic engine's answer.
    fn parse_light(&self, input: &str) -> (result: Result<ParseResult, ZantetsuError>)
        ensures
            heuristic_outcome(input@, result),
    {
        self.heuristic.parse(input)
    }

    /// The answer of the engine that `auto_choice` picks: both engines are
    /// asked, and `arbitrate` chooses between their results.
    fn parse_auto(&self, input: &str, run: Result<&ModelOutput, ZantetsuError>) -> (result: Result<
        ParseResult,
        ZantetsuError,
    >)
        ensures
            match engine_choice(
                ParseMode::Auto,
                self.spec_has_neural(),
                neural_record(input@, run),
                heuristic_record(input@),
                self.spec_config().confidence_threshold,
            ) {
                Engine::Statistical => neural_outcome(input@, run, result),
                Engine::Heuristic => heuristic_outcome(input@, result),
            },
    {
        match &self.neural {
            Some(neural) => {
                let statistical = neural.parse(input, run);
                let heuristic = self.heuristic.parse(input);
                arbitrate(statistical, heuristic, self.config.confidence_threshold)
            },
            None => self.heuristic.parse(input),
        }
    }

    /// Whether a statistical engine is set up.
    pub fn has_neural(&self) -> (b: bool)
        ensures
            b == self.spec_has_neural(),
    {
        self.neural.is_some()
    }

    /// The configuration that the dispatcher was made with.
    pub fn config(&self) -> (config: &ParserConfig)
        ensures
            *config == self.spec_config(),
    {
        &self.config
    }
}

/// Extracts a record with the default configuration.
///
/// Fails with `RegexError` if a pattern of the heuristic engine does not
/// compile; otherwise as `Parser::parse` does in `Auto` mode with a threshold
/// of 0.6.
pub fn parse(input: &str, run: Result<&ModelOutput, ZantetsuError>) -> (result: Result<
    ParseResult,
    ZantetsuError,
>)
    ensures
        if all_patterns_compile() {
            dispatch_outcome(
                ParserConfig {
                    mode: ParseMode::Auto,
                    confidence_threshold: DEFAULT_CONFIDENCE_THRESHOLD,
                    enable_neural: true,
                },
                true,
                input@,
                run,
                result,
            )
        } else {
            result matches Err(e) && e is RegexError
        },
{
    let parser = match Parser::default() {
        Ok(p) => p,
        Err(e) => return Err(e),
    };
    parser.parse(input, run)
}

/// Extracts a record in the given mode, with the default threshold.
pub fn parse_with_mode(
    input: &str,
    mode: ParseMode,
    run: Result<&ModelOutput, ZantetsuError>,
) -> (result: Result<ParseResult, ZantetsuError>)
    ensures
        if all_patterns_compile() {
            dispatch_outcome(
                ParserConfig {
                    mode,
                    confidence_threshold: DEFAULT_CONFIDENCE_THRESHOLD,
                    enable_neural: true,
                },
                true,
                input@,
                run,
                result,
            )
        } else {
            result matches Err(e) && e is RegexError
        },
{
    let config = ParserConfig::new().with_mode(mode);
    let parser = match Parser::new(config) {
        Ok(p) => p,
        Err(e) => return Err(e),
    };
    parser.parse(input, run)
}

} // verus!
