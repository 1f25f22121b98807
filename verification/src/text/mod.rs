//! Text as sequences of characters: the vocabulary in which the parser and the
//! rules are specified, and the verified routines that compute it.

pub mod case;
pub mod chars;
pub mod decimal;
pub mod search;
pub mod space;

pub use case::{
    ascii_lower_code, eq_ignore_ascii_case, lowercase, str_eq_ignore_ascii_case, uppercase,
};
pub(crate) use case::{to_lowercase, to_uppercase};
pub use chars::{append_chars, copy_range, from_chars, str_eq, str_has_char, to_chars};
pub use decimal::{decimal, decimal_string, digit_char, push_decimal};
pub use search::{
    after_first, after_last, after_last_char, before_first, chars_contain, chars_end_with,
    chars_start_with, contains, contains_any, ends_with, find_char, find_word, index_from, is_any,
    lemma_find_char, matches_at, occurs_at, position_after_last, position_of, starts_with,
    str_contains, str_contains_any, str_ends_with, str_is_any, str_starts_with, str_views,
};
pub use space::{
    first_token, first_token_bounds, first_word, is_space, is_whitespace,
    lemma_lines_hold_no_line_feed, lemma_one_line, lemma_trim, lemma_trim_end, lemma_trim_start,
    line_views, lines_trimmed, split_lines, token_len, trim, trim_bounds, trim_end, trim_start,
    trimmed, trimmed_lines,
};
