//! The append-only text sink that a render pass writes into.

use vstd::prelude::*;
use vstd::string::StringExecFns;
use crate::decimal::{
    int_to_string, is_fractional_decimal, is_signed_decimal, is_unsigned_decimal,
    lemma_signed_decimal_is_decimal, lemma_unsigned_decimal_is_digits, signed_decimal,
    uint_to_string, unsigned_decimal,
};
use crate::nodes::{Bind, BindValue};

verus! {

/// An append-only sink for SQL text.
pub trait Collect {
    /// The text accumulated so far.
    spec fn text(&self) -> Seq<char>;

    /// Appends `string` as it stands.
    fn push(&mut self, string: &str)
        ensures
            final(self).text() == old(self).text() + string@,
    ;
}

/// A sink for SQL text that also knows how to write a bound value.
pub trait CollectSql: Collect {
    /// The text that a collector of this type writes for `bind`.
    spec fn bind_text(bind: &Bind) -> Seq<char>;

    /// Appends `bind` in the encoding of this collector.
    fn add_bind(&mut self, bind: &Bind)
        ensures
            final(self).text() == old(self).text() + Self::bind_text(bind),
    ;
}

/// The text for `value` in the one dialect of this library: an integer in
/// decimal, a number with a fraction as its decimal text, a boolean as `'t'`
/// or `'f'`, and a string between single quotes with its characters as they
/// are.
pub open spec fn bind_literal(value: &BindValue) -> Seq<char> {
    match value {
        BindValue::UintKind(u) => unsigned_decimal(*u as nat),
        BindValue::IntKind(i) => signed_decimal(*i as int),
        BindValue::F32Kind(float) => float@,
        BindValue::F64Kind(float) => float@,
        BindValue::BoolKind(true) => seq!['\'', 't', '\''],
        BindValue::BoolKind(false) => seq!['\'', 'f', '\''],
        BindValue::StringKind(string) => seq!['\''] + string@ + seq!['\''],
    }
}

/// Whether `text` follows the grammar of literals for the type of `value`: an
/// unsigned integer is a run of digits; a signed one is a run of digits, with
/// a minus sign in front if and only if the number is negative; a number with
/// a fraction is digits around at most one point; a boolean is `'t'` or `'f'`
/// as the value says; and a string is the value's characters between two
/// single quotes.
pub open spec fn is_literal_of(value: &BindValue, text: Seq<char>) -> bool {
    match value {
        BindValue::UintKind(_) => is_unsigned_decimal(text),
        BindValue::IntKind(i) => {
            &&& is_signed_decimal(text)
            &&& *i >= 0 ==> is_unsigned_decimal(text)
            &&& *i < 0 ==> text.len() > 0 && text[0] == '-'
        },
        BindValue::F32Kind(_) => is_fractional_decimal(text),
        BindValue::F64Kind(_) => is_fractional_decimal(text),
        BindValue::BoolKind(b) => text == if *b {
            seq!['\'', 't', '\'']
        } else {
            seq!['\'', 'f', '\'']
        },
        BindValue::StringKind(string) => {
            &&& text.len() == string@.len() + 2
            &&& text.first() == '\''
            &&& text.last() == '\''
            &&& text.subrange(1, text.len() - 1) == string@
        },
    }
}

/// The text written for a bound value follows the grammar of literals for the
/// value's type.
pub proof fn lemma_bind_literal_grammar(value: &BindValue)
    requires
        value.wf(),
    ensures
        is_literal_of(value, bind_literal(value)),
{
    match value {
        BindValue::UintKind(u) => {
            lemma_unsigned_decimal_is_digits(*u as nat);
        },
        BindValue::IntKind(i) => {
            lemma_signed_decimal_is_decimal(*i as int);
        },
        BindValue::StringKind(string) => {
            let text = bind_literal(value);
            assert(text.subrange(1, text.len() - 1) =~= string@);
        },
        _ => {},
    }
}

/// A collector that keeps the SQL text in one string.
pub struct SqlCollector {
    string: String,
}

impl SqlCollector {
    /// An empty collector.
    pub fn new() -> (collector: SqlCollector)
        ensures
            collector.text() == Seq::<char>::empty(),
    {
        SqlCollector { string: String::new() }
    }

    /// The text collected so far.
    pub fn value(&self) -> (text: &str)
        ensures
            text@ == self.text(),
    {
        self.string.as_str()
    }
}

impl Collect for SqlCollector {
    closed spec fn text(&self) -> Seq<char> {
        self.string@
    }

    fn push(&mut self, string: &str) {
        self.string.append(string);
    }
}

impl CollectSql for SqlCollector {
    open spec fn bind_text(bind: &Bind) -> Seq<char> {
        bind_literal(&bind.value)
    }

    /// Appends the literal for `bind`, which follows the grammar of literals
    /// for the type of the value.
    fn add_bind(&mut self, bind: &Bind)
        ensures
            is_literal_of(&bind.value, Self::bind_text(bind)),
    {
        let text = match &bind.value {
            BindValue::UintKind(u) => {
                proof {
                    lemma_unsigned_decimal_is_digits(*u as nat);
                }
                uint_to_string(*u)
            },
            BindValue::IntKind(i) => {
                proof {
                    lemma_signed_decimal_is_decimal(*i as int);
                }
                int_to_string(*i)
            },
            BindValue::F32Kind(float) => String::from_str(float.as_str()),
            BindValue::F64Kind(float) => String::from_str(float.as_str()),
            BindValue::BoolKind(true) => {
                proof {
                    reveal_strlit("'t'");
                }
                let text = String::from_str("'t'");
                assert(text@ =~= seq!['\'', 't', '\'']);
                text
            },
            BindValue::BoolKind(false) => {
                proof {
                    reveal_strlit("'f'");
                }
                let text = String::from_str("'f'");
                assert(text@ =~= seq!['\'', 'f', '\'']);
                text
            },
            BindValue::StringKind(s) => {
                proof {
                    reveal_strlit("'");
                }
                let mut text = String::from_str("'");
                text.append(s.as_str());
                text.append("'");
                assert(text@ =~= seq!['\''] + s@ + seq!['\'']);
                assert(text@.subrange(1, text@.len() - 1) =~= s@);
                text
            },
        };
        self.push(text.as_str());
    }
}

} // verus!
