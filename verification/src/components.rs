//! The single-line input field widget: an editable text buffer with an
//! optional password mask.
//!
//! The buffer never holds control characters, and the masked rendering
//! reveals nothing about the content beyond its character count.

use vstd::prelude::*;

use crate::keys::{char_printable, spec_char_printable, Key};

verus! {

/// A single-line editable text field.
pub struct InputField {
    pub label: String,
    pub content: String,
    pub is_password: bool,
}

/// The mathematical model of an input field.
pub struct FieldView {
    pub label: Seq<char>,
    pub content: Seq<char>,
    pub masked: bool,
}

impl View for InputField {
    type V = FieldView;

    open spec fn view(&self) -> FieldView {
        FieldView { label: self.label@, content: self.content@, masked: self.is_password }
    }
}

/// A field content is well formed when it holds printable characters only.
pub open spec fn content_wf(content: Seq<char>) -> bool {
    forall|i: int| 0 <= i < content.len() ==> spec_char_printable(content[i])
}

/// The content after one key: backspace removes the last character if any,
/// a printable character is appended, every other key changes nothing.
pub open spec fn content_step(content: Seq<char>, key: Key) -> Seq<char> {
    match key {
        Key::Backspace => if content.len() == 0 {
            content
        } else {
            content.drop_last()
        },
        Key::Char(c) => if spec_char_printable(c) {
            content.push(c)
        } else {
            content
        },
        _ => content,
    }
}

/// The whole field after one key: only the content can change.
pub open spec fn field_step(f: FieldView, key: Key) -> FieldView {
    FieldView { content: content_step(f.content, key), ..f }
}

/// What the field displays: the content, or one placeholder per character
/// when masked, with a trailing cursor mark when the field is active.
pub open spec fn spec_display(f: FieldView, active: bool) -> Seq<char> {
    let base = if f.masked {
        Seq::new(f.content.len(), |i: int| '*')
    } else {
        f.content
    };
    if active {
        base.push('|')
    } else {
        base
    }
}

impl InputField {
    /// Whether this field's buffer is well formed.
    pub open spec fn wf(&self) -> bool {
        content_wf(self@.content)
    }

    /// A fresh field with the given label and empty content.
    pub fn new(label: &str, is_password: bool) -> (f: InputField)
        ensures
            f@ == (FieldView { label: label@, content: Seq::<char>::empty(), masked: is_password }),
            f.wf(),
    {
        InputField { label: String::from_str(label), content: String::new(), is_password }
    }

    /// Applies one key to the buffer, as [`content_step`] describes.
    pub fn handle_input(&mut self, key: Key)
        requires
            old(self).wf(),
        ensures
            final(self)@ == field_step(old(self)@, key),
            final(self).wf(),
    {
        match key {
            Key::Backspace => {
                self.content.pop();
            },
            Key::Char(c) => {
                if char_printable(c) {
                    self.content.push(c);
                }
            },
            _ => {},
        }
    }

    /// The text this field displays, as [`spec_display`] describes.
    pub fn display_text(&self, active: bool) -> (r: String)
        ensures
            r@ == spec_display(self@, active),
    {
        let mut base = if self.is_password {
            let n = self.content.as_str().unicode_len();
            let mut stars = String::new();
            let mut i: usize = 0;
            while i < n
                invariant
                    stars@ == Seq::new(i as nat, |k: int| '*'),
                    i <= n,
                decreases n - i,
            {
                stars.push('*');
                proof {
                    assert(Seq::new(i as nat, |k: int| '*').push('*') =~= Seq::new(
                        (i + 1) as nat,
                        |k: int| '*',
                    ));
                }
                i += 1;
            }
            proof {
                assert(Seq::new(n as nat, |k: int| '*') =~= Seq::new(
                    self@.content.len(),
                    |k: int| '*',
                ));
            }
            stars
        } else {
            self.content.clone()
        };
        if active {
            base.push('|');
        }
        base
    }
}

/// The content after a whole sequence of keys, first key first.
pub open spec fn content_after(content: Seq<char>, keys: Seq<Key>) -> Seq<char>
    decreases keys.len(),
{
    if keys.len() == 0 {
        content
    } else {
        content_after(content_step(content, keys[0]), keys.drop_first())
    }
}

/// Every key in the sequence types a printable character.
pub open spec fn all_printable_chars(keys: Seq<Key>) -> bool {
    forall|i: int|
        0 <= i < keys.len() ==> (#[trigger] keys[i] matches Key::Char(c)
            && spec_char_printable(c))
}

/// Every key in the sequence is a backspace.
pub open spec fn all_backspaces(keys: Seq<Key>) -> bool {
    forall|i: int| 0 <= i < keys.len() ==> keys[i] == Key::Backspace
}

/// The character typed by a printable-character key.
pub open spec fn key_char(key: Key) -> char {
    match key {
        Key::Char(c) => c,
        _ => ' ',
    }
}

/// The characters typed by a sequence of printable-character keys.
pub open spec fn chars_of(keys: Seq<Key>) -> Seq<char> {
    Seq::new(keys.len(), |i: int| key_char(keys[i]))
}

/// Processing a concatenation of key sequences processes one after the other.
proof fn lemma_content_after_append(content: Seq<char>, a: Seq<Key>, b: Seq<Key>)
    ensures
        content_after(content, a + b) == content_after(content_after(content, a), b),
    decreases a.len(),
{
    if a.len() == 0 {
        assert(a + b =~= b);
    } else {
        assert((a + b).drop_first() =~= a.drop_first() + b);
        assert((a + b)[0] == a[0]);
        lemma_content_after_append(content_step(content, a[0]), a.drop_first(), b);
    }
}

/// Typing printable characters appends exactly those characters.
proof fn lemma_typing_appends(content: Seq<char>, keys: Seq<Key>)
    requires
        all_printable_chars(keys),
    ensures
        content_after(content, keys) == content + chars_of(keys),
    decreases keys.len(),
{
    if keys.len() == 0 {
        assert(content + chars_of(keys) =~= content);
    } else {
        let c = key_char(keys[0]);
        assert(content_step(content, keys[0]) == content.push(c));
        lemma_typing_appends(content.push(c), keys.drop_first());
        assert(content.push(c) + chars_of(keys.drop_first()) =~= content + chars_of(keys));
    }
}

/// Backspacing as many times as a suffix is long removes exactly the suffix.
proof fn lemma_backspaces_remove(content: Seq<char>, extra: Seq<char>, keys: Seq<Key>)
    requires
        all_backspaces(keys),
        keys.len() == extra.len(),
    ensures
        content_after(content + extra, keys) == content,
    decreases keys.len(),
{
    if keys.len() == 0 {
        assert(content + extra =~= content);
    } else {
        assert((content + extra).len() > 0);
        assert((content + extra).drop_last() =~= content + extra.drop_last());
        assert(content_step(content + extra, keys[0]) == content + extra.drop_last());
        lemma_backspaces_remove(content, extra.drop_last(), keys.drop_first());
    }
}

/// Typing any printable characters and then erasing with as many backspaces
/// returns an input field's content to what it was.
pub proof fn lemma_type_then_erase(content: Seq<char>, typed: Seq<Key>, erased: Seq<Key>)
    requires
        all_printable_chars(typed),
        all_backspaces(erased),
        typed.len() == erased.len(),
    ensures
        content_after(content, typed + erased) == content,
{
    lemma_content_after_append(content, typed, erased);
    lemma_typing_appends(content, typed);
    lemma_backspaces_remove(content, chars_of(typed), erased);
}

} // verus!
