//! Constrained Viterbi decoding.
//!
//! Given one emission-score vector per position and a transition-score
//! matrix, the decoder finds the tag sequence with the highest additive score
//! among the sequences that obey the tag grammar. Transitions that the
//! grammar forbids are never considered, whatever score the matrix gives
//! them.
//!
//! Scores are signed integers: fixed-point values at a scale of the caller's
//! choosing. Path scores are summed in 128 bits and cannot overflow.

pub mod decoder;
pub mod laws;
pub mod model;

pub use decoder::ViterbiDecoder;
pub use laws::{
    lemma_best_final_ignores_forbidden,
    lemma_best_final_max,
    lemma_best_final_sound,
    lemma_cell_bounds_paths,
    lemma_decode_constrained_deterministic,
    lemma_decode_deterministic,
    lemma_decoded_path_obeys_grammar,
    lemma_decoders_agree,
    lemma_path_ignores_forbidden,
    lemma_scan_ignores_forbidden,
    lemma_scan_max,
    lemma_scan_sound,
    lemma_trace_ignores_forbidden,
    lemma_trace_shape,
    lemma_trace_sound,
    lemma_viterbi_path_optimal,
};
pub use model::{
    agree_where_allowed,
    allowed,
    as_ints,
    best_final,
    cell_int,
    cell_prev,
    cell_score,
    found_score,
    found_tag,
    grammatical,
    index_message,
    mask_fits,
    matrix,
    optimal,
    path_score,
    prefer,
    rows,
    scan,
    score_bound,
    shape_message,
    shapes_fit,
    trace,
    viterbi_path,
    width_message,
};
