pub mod bigint;
pub mod val;
pub mod copy;
pub mod dict;
pub mod seqs;
pub mod text;
pub mod vars;
pub mod record;
