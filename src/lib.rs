mod argument;
mod builder;
mod command;
mod name;
mod text;

pub use argument::{point_after_first, strip_zeros, Argument, IntoArgument, Scientific};
pub use builder::{lemma_appends_keep_order, lemma_new_is_empty, Builder};
pub use command::{command_text, joined_text, lemma_encode_repeatable, path_text, Command};
pub use name::{CommandName, Empty, NameCons, NameConsIter, NamePart};
pub use text::{
    abbrev_len, decimal, digit_char, int_text, is_abbrev_char, lemma_all_abbrev_forms,
    lemma_split_forms, mnemonic, pretty_name,
};
