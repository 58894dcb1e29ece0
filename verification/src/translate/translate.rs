//! A shorter wording of the translation service's answer: the text alone,
//! headed by the detected language where none was given.

use vstd::prelude::*;
use vstd::string::*;
use crate::discord::opt_view;
use crate::translate::translation::{
    answer_text,
    text_of,
    translation_views,
    Translation,
    TranslationView,
};

verus! {

/// The wording of one answer: its text, under a line that names the
/// detected language if the caller gave none.
pub open spec fn worded(answer: TranslationView, source_given: bool) -> Seq<char> {
    match answer.detected_source_language {
        Some(code) => if source_given {
            text_of(answer)
        } else {
            "Translated"@ + " from "@ + code + ":\n"@ + text_of(answer)
        },
        None => text_of(answer),
    }
}

/// The wording of the service's answer: that of its first translation, if
/// it has one.
pub open spec fn worded_first(answers: Option<Seq<TranslationView>>, source_given: bool) -> Option<
    Seq<char>,
> {
    match answers {
        Some(list) => if list.len() > 0 {
            Some(worded(list[0], source_given))
        } else {
            None
        },
        None => None,
    }
}

/// Words the service's answer to a request whose source language was
/// given or not; `None` where the answer holds no translation.
pub fn translate(answers: Option<Vec<Translation>>, source_given: bool) -> (reply: Option<String>)
    ensures
        opt_view(reply) == worded_first(
            match answers {
                Some(list) => Some(translation_views(list@)),
                None => None,
            },
            source_given,
        ),
{
    match answers {
        Some(list) => {
            if list.len() == 0 {
                return None;
            }
            let first = &list[0];
            assert(translation_views(list@)[0] == first@);
            let text = answer_text(first);
            match &first.detected_source_language {
                Some(code) => {
                    if source_given {
                        Some(text)
                    } else {
                        let mut reply = String::from_str("Translated");
                        reply.append(" from ");
                        reply.append(code.as_str());
                        reply.append(":\n");
                        reply.append(text.as_str());
                        Some(reply)
                    }
                },
                None => Some(text),
            }
        },
        None => None,
    }
}

} // verus!
