//! Character classes used by the code editor's tokenizer.

use vstd::prelude::*;

verus! {

/// Classification of characters for identifier and delimiter scanning.
pub trait CharExt: Sized + Copy {
    /// Whether the character may start an identifier.
    spec fn identifier_start_spec(self) -> bool;

    /// Whether the character may continue an identifier.
    spec fn identifier_continue_spec(self) -> bool;

    /// Whether the character opens a bracket pair.
    spec fn open_delimiter_spec(self) -> bool;

    /// Whether the character closes a bracket pair.
    spec fn close_delimiter_spec(self) -> bool;

    fn is_identifier_start(self) -> (r: bool)
        ensures
            r == self.identifier_start_spec(),
    ;

    fn is_identifier_continue(self) -> (r: bool)
        ensures
            r == self.identifier_continue_spec(),
    ;

    fn is_open_delimiter(self) -> (r: bool)
        ensures
            r == self.open_delimiter_spec(),
    ;

    fn is_close_delimiter(self) -> (r: bool)
        ensures
            r == self.close_delimiter_spec(),
    ;
}

impl CharExt for char {
    open spec fn identifier_start_spec(self) -> bool {
        ('A' <= self && self <= 'Z') || self == '_' || ('a' <= self && self <= 'z')
    }

    open spec fn identifier_continue_spec(self) -> bool {
        ('0' <= self && self <= '9') || ('A' <= self && self <= 'Z') || self == '_' || ('a' <= self
            && self <= 'z')
    }

    open spec fn open_delimiter_spec(self) -> bool {
        self == '(' || self == '[' || self == '{'
    }

    open spec fn close_delimiter_spec(self) -> bool {
        self == ')' || self == ']' || self == '}'
    }

    fn is_identifier_start(self) -> (r: bool) {
        match self {
            'A'..='Z' | '_' | 'a'..='z' => true,
            _ => false,
        }
    }

    fn is_identifier_continue(self) -> (r: bool) {
        match self {
            '0'..='9' | 'A'..='Z' | '_' | 'a'..='z' => true,
            _ => false,
        }
    }

    fn is_open_delimiter(self) -> (r: bool) {
        match self {
            '(' | '[' | '{' => true,
            _ => false,
        }
    }

    fn is_close_delimiter(self) -> (r: bool) {
        match self {
            ')' | ']' | '}' => true,
            _ => false,
        }
    }
}

} // verus!
