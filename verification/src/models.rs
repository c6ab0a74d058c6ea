//! Conversation items exchanged with the model.

use crate::text::optional_text;
use vstd::prelude::*;

verus! {

/// One part of a message's content.
#[derive(Debug, PartialEq, Eq)]
pub enum ContentItem {
    InputText { text: String },
    InputImage { image_url: String },
    OutputText { text: String },
}

/// What a [`ContentItem`] holds, as plain text.
pub enum ContentItemView {
    InputText { text: Seq<char> },
    InputImage { image_url: Seq<char> },
    OutputText { text: Seq<char> },
}

impl View for ContentItem {
    type V = ContentItemView;

    open spec fn view(&self) -> ContentItemView {
        match *self {
            ContentItem::InputText { text } => ContentItemView::InputText { text: text@ },
            ContentItem::InputImage { image_url } => ContentItemView::InputImage {
                image_url: image_url@,
            },
            ContentItem::OutputText { text } => ContentItemView::OutputText { text: text@ },
        }
    }
}

impl Clone for ContentItem {
    fn clone(&self) -> (copy: Self)
        ensures
            copy == *self,
    {
        match self {
            ContentItem::InputText { text } => ContentItem::InputText { text: text.clone() },
            ContentItem::InputImage { image_url } => ContentItem::InputImage {
                image_url: image_url.clone(),
            },
            ContentItem::OutputText { text } => ContentItem::OutputText { text: text.clone() },
        }
    }
}

/// One item of a conversation.
#[derive(Debug, PartialEq, Eq)]
pub enum ResponseItem {
    Message { id: Option<String>, role: String, content: Vec<ContentItem> },
    Other,
}

/// What a [`ResponseItem`] holds, as plain text.
pub enum ResponseItemView {
    Message { id: Option<Seq<char>>, role: Seq<char>, content: Seq<ContentItemView> },
    Other,
}

/// The views of a list of content parts, in order.
pub open spec fn content_views(content: Seq<ContentItem>) -> Seq<ContentItemView> {
    Seq::new(content.len(), |i: int| content[i]@)
}

impl View for ResponseItem {
    type V = ResponseItemView;

    open spec fn view(&self) -> ResponseItemView {
        match *self {
            ResponseItem::Message { id, role, content } => ResponseItemView::Message {
                id: optional_text(id),
                role: role@,
                content: content_views(content@),
            },
            ResponseItem::Other => ResponseItemView::Other,
        }
    }
}

impl Clone for ResponseItem {
    fn clone(&self) -> (copy: Self)
        ensures
            copy@ == self@,
    {
        match self {
            ResponseItem::Message { id, role, content } => {
                let id_copy = match id {
                    Some(id) => Some(id.clone()),
                    None => None,
                };
                ResponseItem::Message { id: id_copy, role: role.clone(), content: content.clone() }
            },
            ResponseItem::Other => ResponseItem::Other,
        }
    }
}

} // verus!
