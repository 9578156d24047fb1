//! Tags of data items: classification of inbound items by their tags.
use vstd::prelude::*;

verus! {

/// A `(name, value)` tag as carried by a data item or a bundle.
pub struct Tag {
    pub name: String,
    pub value: String,
}

impl Tag {
    /// A tag named `name` with value `value`.
    pub fn new(name: &str, value: &str) -> (r: Tag)
        ensures
            r.name@ == name@,
            r.value@ == value@,
    {
        Tag { name: name.to_owned(), value: value.to_owned() }
    }
}

/// Whether some tag of `tags` is named `name`.
pub open spec fn has_tag(tags: Seq<Tag>, name: Seq<char>) -> bool {
    exists|i: int| 0 <= i < tags.len() && (#[trigger] tags[i]).name@ == name
}

/// Index of the first tag named `name` at or after `start`, if any.
pub open spec fn first_tag_from(tags: Seq<Tag>, name: Seq<char>, start: int) -> Option<int>
    decreases tags.len() - start,
{
    if start < 0 || start >= tags.len() {
        None
    } else if tags[start].name@ == name {
        Some(start)
    } else {
        first_tag_from(tags, name, start + 1)
    }
}

/// Index of the first tag named `name`, if any.
pub open spec fn first_tag_index(tags: Seq<Tag>, name: Seq<char>) -> Option<int> {
    first_tag_from(tags, name, 0)
}

/// Finds the first tag of `tags` named `name`.
pub fn find_tag(tags: &Vec<Tag>, name: &String) -> (r: Option<usize>)
    ensures
        r matches Some(i) ==> i < tags@.len() && first_tag_index(tags@, name@) == Some(i as int),
        r is None ==> first_tag_index(tags@, name@) is None,
        r is None <==> !has_tag(tags@, name@),
{
    let mut i: usize = 0;
    while i < tags.len()
        invariant
            0 <= i <= tags.len(),
            first_tag_index(tags@, name@) == first_tag_from(tags@, name@, i as int),
            forall|j: int| 0 <= j < i ==> (#[trigger] tags@[j]).name@ != name@,
        decreases tags.len() - i,
    {
        if tags[i].name == *name {
            return Some(i);
        }
        i = i + 1;
    }
    None
}

/// Whether some tag of `tags` is named `name`.
pub fn contains_tag(tags: &Vec<Tag>, name: &String) -> (r: bool)
    ensures
        r == has_tag(tags@, name@),
{
    find_tag(tags, name).is_some()
}

/// What an inbound data item is, by its `Type` tag.
#[derive(PartialEq, Eq, Structural, Clone, Copy, Debug)]
pub enum ItemKind {
    /// A process creation: its own id names the process.
    Process,
    /// A message: its target names the process.
    Message,
}

/// Why an inbound item could not be classified.
#[derive(PartialEq, Eq, Structural, Clone, Copy, Debug)]
pub enum ClassifyError {
    /// No `Data-Protocol` tag.
    MissingProtocol,
    /// No `Type` tag, or its value is neither `Process` nor `Message`.
    MissingType,
    /// A process lacks its `Module` or `Scheduler` tag.
    MissingProcessTags,
}

pub open spec fn protocol_name() -> Seq<char> { seq!['D','a','t','a','-','P','r','o','t','o','c','o','l'] }
pub open spec fn type_tag_name() -> Seq<char> { seq!['T','y','p','e'] }
pub open spec fn module_name() -> Seq<char> { seq!['M','o','d','u','l','e'] }
pub open spec fn scheduler_name() -> Seq<char> { seq!['S','c','h','e','d','u','l','e','r'] }
pub open spec fn process_word() -> Seq<char> { seq!['P','r','o','c','e','s','s'] }
pub open spec fn message_word() -> Seq<char> { seq!['M','e','s','s','a','g','e'] }

/// The classification that the tags of an inbound item call for.
pub open spec fn classify_spec(tags: Seq<Tag>) -> Result<ItemKind, ClassifyError> {
    if !has_tag(tags, protocol_name()) {
        Err(ClassifyError::MissingProtocol)
    } else {
        match first_tag_index(tags, type_tag_name()) {
            None => Err(ClassifyError::MissingType),
            Some(i) => {
                if tags[i].value@ == process_word() {
                    if has_tag(tags, module_name()) && has_tag(tags, scheduler_name()) {
                        Ok(ItemKind::Process)
                    } else {
                        Err(ClassifyError::MissingProcessTags)
                    }
                } else if tags[i].value@ == message_word() {
                    Ok(ItemKind::Message)
                } else {
                    Err(ClassifyError::MissingType)
                }
            }
        }
    }
}

fn lit(s: &str) -> (r: String)
    ensures
        r@ == s@,
{
    String::from_str(s)
}

/// Classifies an inbound item by its tags: `Data-Protocol` must be present;
/// the first `Type` tag decides between a process (which also needs
/// `Module` and `Scheduler`) and a message.
pub fn classify(tags: &Vec<Tag>) -> (r: Result<ItemKind, ClassifyError>)
    ensures
        r == classify_spec(tags@),
{
    proof {
        reveal_strlit("Data-Protocol");
        reveal_strlit("Type");
        reveal_strlit("Module");
        reveal_strlit("Scheduler");
        reveal_strlit("Process");
        reveal_strlit("Message");
    }
    let protocol = lit("Data-Protocol");
    assert(protocol@ =~= protocol_name());
    if !contains_tag(tags, &protocol) {
        return Err(ClassifyError::MissingProtocol);
    }
    let type_tag = lit("Type");
    assert(type_tag@ =~= type_tag_name());
    match find_tag(tags, &type_tag) {
        None => Err(ClassifyError::MissingType),
        Some(i) => {
            let process = lit("Process");
            let message = lit("Message");
            assert(process@ =~= process_word());
            assert(message@ =~= message_word());
            if tags[i].value == process {
                let module = lit("Module");
                let scheduler = lit("Scheduler");
                assert(module@ =~= module_name());
                assert(scheduler@ =~= scheduler_name());
                if contains_tag(tags, &module) && contains_tag(tags, &scheduler) {
                    Ok(ItemKind::Process)
                } else {
                    Err(ClassifyError::MissingProcessTags)
                }
            } else if tags[i].value == message {
                Ok(ItemKind::Message)
            } else {
                Err(ClassifyError::MissingType)
            }
        }
    }
}

} // verus!
