//! Conversation agent: builds the assistant's system prompt and detects the
//! end-of-conversation keyword in a response.

use vstd::prelude::*;
use vstd::string::StringExecFns;

verus! {

/// JARVIS persona section of the system prompt.
pub const SYSTEM_PROMPT: &'static str = r#"You are JARVIS, the sophisticated AI assistant from Iron Man.

# Core Traits

Voice: Refined British eloquence, dry wit, polite formality
Demeanor: Calm, loyal, genuinely protective
Expertise: Advanced tech, science, strategic planning

# Communication Style

Provide precise, proactive solutions
DO NOT use emojis or special characters like asterisks / *
End: Offer additional assistance"#;

/// Behavioural instructions, one per line.
pub const INSTRUCTIONS: &'static str = r#"never use ellipsis (...)
Keep your answers short but precise
Only use tools if you absolutely have to."#;

/// End-conversation instructions, up to the first keyword slot.
pub const END_INSTRUCTIONS_HEAD: &'static str = r#"# End conversation

When the user indicates they want to end the conversation (through phrases like "goodbye," "bye," "talk to you later," "that's all," "thanks, I'm done," or similar farewell expressions), respond with a polite farewell message and then include the exact keyword "#;

/// End-conversation instructions between the two keyword slots.
pub const END_INSTRUCTIONS_TAIL: &'static str = r#" on a new line at the very end of your response.
But only use that if you are 100% sure the user explicitly told you to end the conversation!

Example format:
Thank you for the conversation! Have a great day.
"#;

/// The end-conversation instructions for `keyword`: the fixed template with
/// the keyword filled into both slots.
pub open spec fn spec_end_instructions(keyword: Seq<char>) -> Seq<char> {
    END_INSTRUCTIONS_HEAD@ + keyword + END_INSTRUCTIONS_TAIL@ + keyword
}

/// The full system prompt for `keyword`: persona, instructions and
/// end-conversation template, separated by blank lines.
pub open spec fn spec_system_prompt(keyword: Seq<char>) -> Seq<char> {
    SYSTEM_PROMPT@ + "\n\n"@ + INSTRUCTIONS@ + "\n\n"@ + spec_end_instructions(keyword)
}

/// `pat` occurs as a contiguous substring of `text`.
pub open spec fn spec_contains(text: Seq<char>, pat: Seq<char>) -> bool {
    exists|i: int| 0 <= i && i + pat.len() <= text.len() && #[trigger] text.subrange(
        i,
        i + pat.len(),
    ) == pat
}

/// Generate end conversation instructions with keyword.
pub fn get_end_instructions(keyword: &str) -> (r: String)
    ensures
        r@ == spec_end_instructions(keyword@),
{
    let mut s = END_INSTRUCTIONS_HEAD.to_owned();
    s.append(keyword);
    s.append(END_INSTRUCTIONS_TAIL);
    s.append(keyword);
    s
}

/// Whether `text` matches `pat` character by character at offset `i`.
fn matches_at(text: &str, pat: &str, i: usize) -> (r: bool)
    requires
        i + pat@.len() <= text@.len(),
    ensures
        r == (text@.subrange(i as int, i + pat@.len()) == pat@),
{
    let n = text.unicode_len();
    let m = pat.unicode_len();
    let mut j: usize = 0;
    while j < m
        invariant
            j <= m,
            n == text@.len(),
            m == pat@.len(),
            i + m <= n,
            forall|l: int| 0 <= l < j ==> text@[i + l] == pat@[l],
        decreases m - j,
    {
        if text.get_char(i + j) != pat.get_char(j) {
            proof {
                assert(text@.subrange(i as int, i + m as int)[j as int] == text@[i + j]);
            }
            return false;
        }
        j += 1;
    }
    proof {
        assert(text@.subrange(i as int, i + m as int) =~= pat@);
    }
    true
}

/// Substring search by direct comparison at every offset.
fn str_contains(text: &str, pat: &str) -> (r: bool)
    ensures
        r == spec_contains(text@, pat@),
{
    let n = text.unicode_len();
    let m = pat.unicode_len();
    if m == 0 {
        proof {
            assert(text@.subrange(0, 0 + pat@.len() as int) =~= pat@);
        }
        return true;
    }
    if m > n {
        return false;
    }
    let mut i: usize = 0;
    while i <= n - m
        invariant
            1 <= m <= n,
            n == text@.len(),
            m == pat@.len(),
            i <= n - m + 1,
            forall|k: int| 0 <= k < i ==> #[trigger] text@.subrange(k, k + m as int) != pat@,
        decreases n - m - i + 1,
    {
        if matches_at(text, pat, i) {
            return true;
        }
        i += 1;
    }
    false
}

/// Agent for managing conversations and AI interactions.
pub struct Agent {
    system_prompt: String,
    conversation_end_keyword: String,
}

impl Agent {
    /// The characters of the stored system prompt.
    pub closed spec fn prompt_view(&self) -> Seq<char> {
        self.system_prompt@
    }

    /// The characters of the stored end keyword.
    pub closed spec fn keyword_view(&self) -> Seq<char> {
        self.conversation_end_keyword@
    }

    /// Create a new agent with default settings.
    pub fn new() -> (r: Agent)
        ensures
            r.keyword_view() == "CONVERSATION_ENDED"@,
            r.prompt_view() == spec_system_prompt("CONVERSATION_ENDED"@),
    {
        Self::with_keyword("CONVERSATION_ENDED")
    }

    /// Create a new agent with a custom end keyword.
    pub fn with_keyword(keyword: &str) -> (r: Agent)
        ensures
            r.keyword_view() == keyword@,
            r.prompt_view() == spec_system_prompt(keyword@),
    {
        Agent {
            system_prompt: Self::build_system_prompt(keyword),
            conversation_end_keyword: keyword.to_owned(),
        }
    }

    /// Build the complete system prompt.
    fn build_system_prompt(keyword: &str) -> (r: String)
        ensures
            r@ == spec_system_prompt(keyword@),
    {
        let mut prompt = SYSTEM_PROMPT.to_owned();
        prompt.append("\n\n");
        prompt.append(INSTRUCTIONS);
        prompt.append("\n\n");
        let end = get_end_instructions(keyword);
        prompt.append(end.as_str());
        prompt
    }

    /// Get the system prompt.
    pub fn system_prompt(&self) -> (r: &str)
        ensures
            r@ == self.prompt_view(),
    {
        self.system_prompt.as_str()
    }

    /// Get the conversation end keyword.
    pub fn conversation_end_keyword(&self) -> (r: &str)
        ensures
            r@ == self.keyword_view(),
    {
        self.conversation_end_keyword.as_str()
    }

    /// Check if a response contains the end keyword.
    pub fn is_conversation_ended(&self, response: &str) -> (r: bool)
        ensures
            r == spec_contains(response@, self.keyword_view()),
    {
        str_contains(response, self.conversation_end_keyword.as_str())
    }
}

impl Default for Agent {
    /// Same as `Agent::new`.
    fn default() -> (r: Self)
        ensures
            r.keyword_view() == "CONVERSATION_ENDED"@,
            r.prompt_view() == spec_system_prompt("CONVERSATION_ENDED"@),
    {
        Self::new()
    }
}

} // verus!
