//! The field extractor: separates an event's named fields into the text to
//! display and the reserved presentation settings.

use vstd::prelude::*;

verus! {

/// Name of the field holding an event's primary message.
pub const MESSAGE_KEY: &'static str = "message";

/// Name of the reserved field holding the color of the message text.
pub const TEXT_COLOR_KEY: &'static str = "_text_color";

/// Name of the reserved field holding the color of the header label.
pub const HEADER_COLOR_KEY: &'static str = "_header_color";

/// Name of the reserved field holding the header label.
pub const HEADER_TEXT_KEY: &'static str = "_header_text";

/// The value of a field as handed to the renderer.
#[derive(Debug)]
pub enum FieldValue {
    /// A string value, written verbatim.
    Str(String),
    /// Any other value, already written in its debug form.
    Debug(String),
}

/// A named field of an event.
#[derive(Debug)]
pub struct Field {
    pub name: String,
    pub value: FieldValue,
}

/// What an extractor has gathered, as mathematical values.
pub struct Extracted {
    pub text: Seq<char>,
    pub text_color: Option<Seq<char>>,
    pub header_color: Option<Seq<char>>,
    pub header_text: Option<Seq<char>>,
}

/// The view of an optional string.
pub open spec fn opt_view(o: Option<String>) -> Option<Seq<char>> {
    match o {
        Some(s) => Some(s@),
        None => None,
    }
}

/// Nothing gathered yet.
pub open spec fn empty_extracted() -> Extracted {
    Extracted { text: Seq::empty(), text_color: None, header_color: None, header_text: None }
}

/// The text added for an ordinary field: `, <name> = <value>`.
pub open spec fn field_suffix(name: Seq<char>, value: Seq<char>) -> Seq<char> {
    ", "@ + name + " = "@ + value
}

/// Effect of a string-valued field.
pub open spec fn record_str_spec(e: Extracted, name: Seq<char>, value: Seq<char>) -> Extracted {
    if name == TEXT_COLOR_KEY@ {
        Extracted { text_color: Some(value), ..e }
    } else if name == HEADER_COLOR_KEY@ {
        Extracted { header_color: Some(value), ..e }
    } else if name == HEADER_TEXT_KEY@ {
        Extracted { header_text: Some(value), ..e }
    } else if name == MESSAGE_KEY@ {
        Extracted { text: e.text + value, ..e }
    } else {
        Extracted { text: e.text + field_suffix(name, value), ..e }
    }
}

/// Effect of a field of any other type, given its debug form.
pub open spec fn record_debug_spec(e: Extracted, name: Seq<char>, value: Seq<char>) -> Extracted {
    if name == MESSAGE_KEY@ {
        Extracted { text: e.text + value, ..e }
    } else {
        Extracted { text: e.text + field_suffix(name, value), ..e }
    }
}

/// Effect of one field.
pub open spec fn record_spec(e: Extracted, f: Field) -> Extracted {
    match f.value {
        FieldValue::Str(v) => record_str_spec(e, f.name@, v@),
        FieldValue::Debug(v) => record_debug_spec(e, f.name@, v@),
    }
}

/// What the fields give, processed in order.
pub open spec fn extract_spec(fields: Seq<Field>) -> Extracted
    decreases fields.len(),
{
    if fields.len() == 0 {
        empty_extracted()
    } else {
        record_spec(extract_spec(fields.drop_last()), fields.last())
    }
}

/// Whether two strings hold the same characters.
pub fn same_text(a: &str, b: &str) -> (r: bool)
    ensures
        r == (a@ == b@),
{
    let n = a.unicode_len();
    if n != b.unicode_len() {
        return false;
    }
    let mut i: usize = 0;
    while i < n
        invariant
            n == a@.len(),
            n == b@.len(),
            i <= n,
            forall|k: int| 0 <= k < i ==> a@[k] == b@[k],
        decreases n - i,
    {
        if a.get_char(i) != b.get_char(i) {
            return false;
        }
        i = i + 1;
    }
    assert(a@ =~= b@);
    true
}

/// Gathers the display text and the presentation settings of one event.
pub struct ConfigExtractor {
    pub buf: String,
    pub text_color: Option<String>,
    pub header_color: Option<String>,
    pub header_text: Option<String>,
}

impl View for ConfigExtractor {
    type V = Extracted;

    open spec fn view(&self) -> Extracted {
        Extracted {
            text: self.buf@,
            text_color: opt_view(self.text_color),
            header_color: opt_view(self.header_color),
            header_text: opt_view(self.header_text),
        }
    }
}

impl ConfigExtractor {
    /// An extractor that has seen no field.
    pub fn new() -> (r: Self)
        ensures
            r@ == empty_extracted(),
    {
        ConfigExtractor { buf: String::new(), text_color: None, header_color: None, header_text: None }
    }

    fn append_field(&mut self, name: &str, value: &str)
        ensures
            final(self)@ == (Extracted { text: old(self)@.text + field_suffix(name@, value@), ..old(self)@ }),
    {
        self.buf.append(", ");
        self.buf.append(name);
        self.buf.append(" = ");
        self.buf.append(value);
        assert(final(self).buf@ =~= old(self).buf@ + field_suffix(name@, value@));
    }

    /// Takes in a string-valued field: a reserved name sets its setting, the
    /// message is appended as it is, any other field as `, <name> = <value>`.
    pub fn record_str(&mut self, name: &str, value: &str)
        ensures
            final(self)@ == record_str_spec(old(self)@, name@, value@),
    {
        if same_text(name, TEXT_COLOR_KEY) {
            self.text_color = Some(String::from_str(value));
        } else if same_text(name, HEADER_COLOR_KEY) {
            self.header_color = Some(String::from_str(value));
        } else if same_text(name, HEADER_TEXT_KEY) {
            self.header_text = Some(String::from_str(value));
        } else if same_text(name, MESSAGE_KEY) {
            self.buf.append(value);
        } else {
            self.append_field(name, value);
        }
    }

    /// Takes in a field of any other type, given its debug form: the message
    /// is appended as it is, any other field as `, <name> = <value>`.
    pub fn record_debug(&mut self, name: &str, value: &str)
        ensures
            final(self)@ == record_debug_spec(old(self)@, name@, value@),
    {
        if same_text(name, MESSAGE_KEY) {
            self.buf.append(value);
        } else {
            self.append_field(name, value);
        }
    }

    /// Takes in one field.
    pub fn record(&mut self, field: &Field)
        ensures
            final(self)@ == record_spec(old(self)@, *field),
    {
        match &field.value {
            FieldValue::Str(v) => self.record_str(field.name.as_str(), v.as_str()),
            FieldValue::Debug(v) => self.record_debug(field.name.as_str(), v.as_str()),
        }
    }

    /// Extracts the fields of one event, in the order given.
    pub fn extract(fields: &Vec<Field>) -> (r: Self)
        ensures
            r@ == extract_spec(fields@),
    {
        let mut e = ConfigExtractor::new();
        let mut i: usize = 0;
        while i < fields.len()
            invariant
                i <= fields@.len(),
                e@ == extract_spec(fields@.take(i as int)),
            decreases fields@.len() - i,
        {
            proof {
                assert(fields@.take(i + 1).drop_last() =~= fields@.take(i as int));
            }
            e.record(&fields[i]);
            i = i + 1;
        }
        assert(fields@.take(fields@.len() as int) =~= fields@);
        e
    }
}

} // verus!
