//! The node taxonomy: the closed set of shapes a parsed document is made of.
//!
//! Every type here is plain data. A producer builds the tree once; readers
//! only look at it. No node carries an invariant of its own.

use vstd::prelude::*;

verus! {

/// The root of a parsed source text: its blocks, in source order.
#[derive(Debug)]
pub struct Document {
    pub blocks: Vec<BlockNode>,
}

/// One block-level unit of a document.
#[derive(Debug)]
pub enum BlockNode {
    Paragraph(Paragraph),
    Heading(Heading),
    CodeBlock(CodeBlock),
    ThematicBreak,
    /// A bare run of inline nodes standing where a block is expected.
    InlineContent(Vec<InlineContent>),
}

#[derive(Debug)]
pub struct Paragraph {
    pub content: Vec<InlineContent>,
}

#[derive(Debug)]
pub struct Heading {
    pub level: u8,
    pub content: Vec<InlineContent>,
}

#[derive(Debug)]
pub struct CodeBlock {
    pub language: Option<String>,
    pub content: String,
}

/// One inline unit inside a block.
#[derive(Debug)]
pub enum InlineContent {
    Text(String),
    Emphasis(Emphasis),
    Strong(Strong),
    Link(Link),
    CodeSpan(CodeSpan),
    Hook(Hook),
    Strikethrough(Strikethrough),
    Icu(Icu),
    /// The `#` marker inside a plural arm.
    IcuPound,
    HardLineBreak,
}

#[derive(Debug)]
pub struct Emphasis {
    pub content: Vec<InlineContent>,
}

#[derive(Debug)]
pub struct Strong {
    pub content: Vec<InlineContent>,
}

#[derive(Debug)]
pub struct Strikethrough {
    pub content: Vec<InlineContent>,
}

#[derive(Debug)]
pub struct Hook {
    pub content: Vec<InlineContent>,
}

#[derive(Debug)]
pub struct CodeSpan {
    pub content: String,
}

#[derive(Debug)]
pub struct Link {
    pub label: Vec<InlineContent>,
    pub destination: TextOrPlaceholder,
}

/// Where a link points: a literal string, or an ICU expression that computes it.
#[derive(Debug)]
pub enum TextOrPlaceholder {
    Text(String),
    Placeholder(Icu),
}

/// One parsed ICU argument.
#[derive(Debug)]
pub enum Icu {
    IcuVariable(IcuVariable),
    IcuPlural(IcuPlural),
    IcuSelect(IcuSelect),
    IcuDate(IcuDate),
    IcuTime(IcuTime),
    IcuNumber(IcuNumber),
}

#[derive(Debug)]
pub struct IcuVariable {
    pub name: String,
}

#[derive(Debug)]
pub struct IcuPlural {
    pub variable: IcuVariable,
    /// The arms in the order the source declares them.
    pub arms: Vec<IcuPluralArm>,
}

#[derive(Debug)]
pub struct IcuSelect {
    pub variable: IcuVariable,
    /// The arms in the order the source declares them.
    pub arms: Vec<IcuPluralArm>,
}

/// One labelled branch of a plural or select expression.
#[derive(Debug)]
pub struct IcuPluralArm {
    pub selector: String,
    pub content: Vec<InlineContent>,
}

#[derive(Debug)]
pub struct IcuDate {
    pub variable: IcuVariable,
    pub style: Option<IcuDateTimeStyle>,
}

#[derive(Debug)]
pub struct IcuTime {
    pub variable: IcuVariable,
    pub style: Option<IcuDateTimeStyle>,
}

#[derive(Debug)]
pub struct IcuNumber {
    pub variable: IcuVariable,
    pub style: Option<IcuNumberStyle>,
}

/// A named skeleton or an explicit pattern for a date or a time.
#[derive(Debug)]
pub struct IcuDateTimeStyle {
    pub text: String,
}

/// A named skeleton or an explicit pattern for a number.
#[derive(Debug)]
pub struct IcuNumberStyle {
    pub text: String,
}

impl Document {
    pub fn new(blocks: Vec<BlockNode>) -> (document: Self)
        ensures
            document.blocks == blocks,
    {
        Document { blocks }
    }

    pub fn blocks(&self) -> (blocks: &Vec<BlockNode>)
        ensures
            *blocks == self.blocks,
    {
        &self.blocks
    }
}

impl Paragraph {
    pub fn new(content: Vec<InlineContent>) -> (paragraph: Self)
        ensures
            paragraph.content == content,
    {
        Paragraph { content }
    }

    pub fn content(&self) -> (content: &Vec<InlineContent>)
        ensures
            *content == self.content,
    {
        &self.content
    }
}

impl Heading {
    pub fn new(level: u8, content: Vec<InlineContent>) -> (heading: Self)
        ensures
            heading.level == level,
            heading.content == content,
    {
        Heading { level, content }
    }

    pub fn level(&self) -> (level: u8)
        ensures
            level == self.level,
    {
        self.level
    }

    pub fn content(&self) -> (content: &Vec<InlineContent>)
        ensures
            *content == self.content,
    {
        &self.content
    }
}

impl CodeBlock {
    pub fn new(language: Option<String>, content: String) -> (code_block: Self)
        ensures
            code_block.language == language,
            code_block.content == content,
    {
        CodeBlock { language, content }
    }

    pub fn language(&self) -> (language: &Option<String>)
        ensures
            *language == self.language,
    {
        &self.language
    }

    pub fn content(&self) -> (content: &String)
        ensures
            *content == self.content,
    {
        &self.content
    }
}

impl Emphasis {
    pub fn new(content: Vec<InlineContent>) -> (emphasis: Self)
        ensures
            emphasis.content == content,
    {
        Emphasis { content }
    }

    pub fn content(&self) -> (content: &Vec<InlineContent>)
        ensures
            *content == self.content,
    {
        &self.content
    }
}

impl Strong {
    pub fn new(content: Vec<InlineContent>) -> (strong: Self)
        ensures
            strong.content == content,
    {
        Strong { content }
    }

    pub fn content(&self) -> (content: &Vec<InlineContent>)
        ensures
            *content == self.content,
    {
        &self.content
    }
}

impl Strikethrough {
    pub fn new(content: Vec<InlineContent>) -> (strikethrough: Self)
        ensures
            strikethrough.content == content,
    {
        Strikethrough { content }
    }

    pub fn content(&self) -> (content: &Vec<InlineContent>)
        ensures
            *content == self.content,
    {
        &self.content
    }
}

impl Hook {
    pub fn new(content: Vec<InlineContent>) -> (hook: Self)
        ensures
            hook.content == content,
    {
        Hook { content }
    }

    pub fn content(&self) -> (content: &Vec<InlineContent>)
        ensures
            *content == self.content,
    {
        &self.content
    }
}

impl CodeSpan {
    pub fn new(content: String) -> (code_span: Self)
        ensures
            code_span.content == content,
    {
        CodeSpan { content }
    }

    pub fn content(&self) -> (content: &String)
        ensures
            *content == self.content,
    {
        &self.content
    }
}

impl Link {
    pub fn new(label: Vec<InlineContent>, destination: TextOrPlaceholder) -> (link: Self)
        ensures
            link.label == label,
            link.destination == destination,
    {
        Link { label, destination }
    }

    pub fn label(&self) -> (label: &Vec<InlineContent>)
        ensures
            *label == self.label,
    {
        &self.label
    }

    pub fn destination(&self) -> (destination: &TextOrPlaceholder)
        ensures
            *destination == self.destination,
    {
        &self.destination
    }
}

impl IcuVariable {
    pub fn new(name: String) -> (variable: Self)
        ensures
            variable.name == name,
    {
        IcuVariable { name }
    }

    pub fn name(&self) -> (name: &String)
        ensures
            *name == self.name,
    {
        &self.name
    }
}

impl IcuPlural {
    pub fn new(variable: IcuVariable, arms: Vec<IcuPluralArm>) -> (plural: Self)
        ensures
            plural.variable == variable,
            plural.arms == arms,
    {
        IcuPlural { variable, arms }
    }

    pub fn variable(&self) -> (variable: &IcuVariable)
        ensures
            *variable == self.variable,
    {
        &self.variable
    }

    pub fn arms(&self) -> (arms: &Vec<IcuPluralArm>)
        ensures
            *arms == self.arms,
    {
        &self.arms
    }
}

impl IcuSelect {
    pub fn new(variable: IcuVariable, arms: Vec<IcuPluralArm>) -> (select: Self)
        ensures
            select.variable == variable,
            select.arms == arms,
    {
        IcuSelect { variable, arms }
    }

    pub fn variable(&self) -> (variable: &IcuVariable)
        ensures
            *variable == self.variable,
    {
        &self.variable
    }

    pub fn arms(&self) -> (arms: &Vec<IcuPluralArm>)
        ensures
            *arms == self.arms,
    {
        &self.arms
    }
}

impl IcuPluralArm {
    pub fn new(selector: String, content: Vec<InlineContent>) -> (arm: Self)
        ensures
            arm.selector == selector,
            arm.content == content,
    {
        IcuPluralArm { selector, content }
    }

    pub fn selector(&self) -> (selector: &String)
        ensures
            *selector == self.selector,
    {
        &self.selector
    }

    pub fn content(&self) -> (content: &Vec<InlineContent>)
        ensures
            *content == self.content,
    {
        &self.content
    }
}

impl IcuDate {
    pub fn new(variable: IcuVariable, style: Option<IcuDateTimeStyle>) -> (date: Self)
        ensures
            date.variable == variable,
            date.style == style,
    {
        IcuDate { variable, style }
    }

    pub fn variable(&self) -> (variable: &IcuVariable)
        ensures
            *variable == self.variable,
    {
        &self.variable
    }

    pub fn style(&self) -> (style: &Option<IcuDateTimeStyle>)
        ensures
            *style == self.style,
    {
        &self.style
    }
}

impl IcuTime {
    pub fn new(variable: IcuVariable, style: Option<IcuDateTimeStyle>) -> (time: Self)
        ensures
            time.variable == variable,
            time.style == style,
    {
        IcuTime { variable, style }
    }

    pub fn variable(&self) -> (variable: &IcuVariable)
        ensures
            *variable == self.variable,
    {
        &self.variable
    }

    pub fn style(&self) -> (style: &Option<IcuDateTimeStyle>)
        ensures
            *style == self.style,
    {
        &self.style
    }
}

impl IcuNumber {
    pub fn new(variable: IcuVariable, style: Option<IcuNumberStyle>) -> (number: Self)
        ensures
            number.variable == variable,
            number.style == style,
    {
        IcuNumber { variable, style }
    }

    pub fn variable(&self) -> (variable: &IcuVariable)
        ensures
            *variable == self.variable,
    {
        &self.variable
    }

    pub fn style(&self) -> (style: &Option<IcuNumberStyle>)
        ensures
            *style == self.style,
    {
        &self.style
    }
}

impl IcuDateTimeStyle {
    pub fn new(text: String) -> (style: Self)
        ensures
            style.text == text,
    {
        IcuDateTimeStyle { text }
    }

    pub fn text(&self) -> (text: &String)
        ensures
            *text == self.text,
    {
        &self.text
    }
}

impl IcuNumberStyle {
    pub fn new(text: String) -> (style: Self)
        ensures
            style.text == text,
    {
        IcuNumberStyle { text }
    }

    pub fn text(&self) -> (text: &String)
        ensures
            *text == self.text,
    {
        &self.text
    }
}

} // verus!
