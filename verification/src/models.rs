use vstd::prelude::*;

verus! {

/// A one-field JSON payload for acknowledgement responses.
pub struct SimpleResponse {
    pub value: String,
}

impl SimpleResponse {
    /// A response carrying exactly the given text.
    pub fn new(value: &str) -> (r: SimpleResponse)
        ensures
            r.value@ == value@,
    {
        SimpleResponse { value: value.to_owned() }
    }
}

/// One row of the templates relation in the backing store: a template name
/// and its source text.
pub struct TemplateData {
    pub key: String,
    pub template: String,
}

impl Clone for TemplateData {
    fn clone(&self) -> (r: Self)
        ensures
            r == *self,
    {
        TemplateData { key: self.key.clone(), template: self.template.clone() }
    }
}

/// One row of the page listing returned to authenticated API callers.
pub struct PageListItem {
    pub slug: String,
    pub title: String,
}

/// The editable fields of a page, as sent and received by the edit API.
pub struct PageEdit {
    pub title: String,
    pub raw: String,
}

/// The length of a slice, under the name conversions in handlers use.
pub fn get_size<T>(vec: &[T]) -> (n: usize)
    ensures
        n == vec@.len(),
{
    vec.len()
}

/// The neighbour pages one listing page links to.
pub struct PageLinks {
    /// More rows exist past this page.
    pub has_next: bool,
    /// The page a "next" link points at, when there is one.
    pub next_page: Option<i32>,
    /// The page a "prev" link points at, when there is one.
    pub prev_page: Option<i32>,
}

/// Trim one fetched listing to a page. The query asks the store for one
/// row more than a page shows; that extra row only signals that a next
/// page exists and is dropped here. Returns which neighbour pages of
/// `current` to link: the next exactly when the extra row came back, the
/// previous exactly when `current` is past the first page.
pub fn paginate<T>(rows: &mut Vec<T>, current: i32, page_size: usize) -> (links: PageLinks)
    requires
        current < i32::MAX,
    ensures
        links.has_next == (old(rows)@.len() > page_size),
        final(rows)@ == (if old(rows)@.len() > page_size {
            old(rows)@.subrange(0, page_size as int)
        } else {
            old(rows)@
        }),
        links.next_page == (if old(rows)@.len() > page_size {
            Some((current + 1) as i32)
        } else {
            None::<i32>
        }),
        links.prev_page == (if current > 1 {
            Some((current - 1) as i32)
        } else {
            None::<i32>
        }),
{
    let has_next = rows.len() > page_size;
    rows.truncate(page_size);
    PageLinks {
        has_next,
        next_page: if has_next {
            Some(current + 1)
        } else {
            None
        },
        prev_page: if current > 1 {
            Some(current - 1)
        } else {
            None
        },
    }
}

} // verus!
