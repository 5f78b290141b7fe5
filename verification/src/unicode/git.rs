//! Git status, diff, branch and action symbols.

use vstd::prelude::*;
use crate::unicode::UnicodeProvider;
use crate::unicode::UnicodeTheme;

verus! {

/// Working-tree status of a file.
#[derive(Debug, Clone, Copy, PartialEq, Eq)]
pub enum GitStatus {
    /// File is modified
    Modified,
    /// File is added/new
    Added,
    /// File is deleted
    Deleted,
    /// File is renamed
    Renamed,
    /// File is copied
    Copied,
    /// File is untracked
    Untracked,
    /// File is staged
    Staged,
    /// File is ignored
    Ignored,
    /// File has conflicts
    Conflicted,
    /// File is unchanged
    Unchanged,
}

impl UnicodeProvider for GitStatus {
    open spec fn spec_char(&self, theme: UnicodeTheme) -> char {
        match (*self, theme) {
            (GitStatus::Modified, UnicodeTheme::Minimal) => 'M',
            (GitStatus::Modified, UnicodeTheme::Basic) => '\u{25CF}',
            (GitStatus::Modified, UnicodeTheme::Rich) => '\u{25CF}',
            (GitStatus::Modified, UnicodeTheme::Fancy) => '\u{25D0}',

            (GitStatus::Added, UnicodeTheme::Minimal) => '+',
            (GitStatus::Added, UnicodeTheme::Basic) => '+',
            (GitStatus::Added, UnicodeTheme::Rich) => '\u{271A}',
            (GitStatus::Added, UnicodeTheme::Fancy) => '\u{2295}',

            (GitStatus::Deleted, UnicodeTheme::Minimal) => '-',
            (GitStatus::Deleted, UnicodeTheme::Basic) => '-',
            (GitStatus::Deleted, UnicodeTheme::Rich) => '\u{2716}',
            (GitStatus::Deleted, UnicodeTheme::Fancy) => '\u{2296}',

            (GitStatus::Renamed, UnicodeTheme::Minimal) => 'R',
            (GitStatus::Renamed, UnicodeTheme::Basic) => '>',
            (GitStatus::Renamed, UnicodeTheme::Rich) => '\u{279C}',
            (GitStatus::Renamed, UnicodeTheme::Fancy) => '\u{2937}',

            (GitStatus::Copied, UnicodeTheme::Minimal) => 'C',
            (GitStatus::Copied, UnicodeTheme::Basic) => '=',
            (GitStatus::Copied, UnicodeTheme::Rich) => '\u{29C9}',
            (GitStatus::Copied, UnicodeTheme::Fancy) => '\u{2398}',

            (GitStatus::Untracked, UnicodeTheme::Minimal) => '?',
            (GitStatus::Untracked, UnicodeTheme::Basic) => '?',
            (GitStatus::Untracked, UnicodeTheme::Rich) => '?',
            (GitStatus::Untracked, UnicodeTheme::Fancy) => '\u{2753}',

            (GitStatus::Staged, UnicodeTheme::Minimal) => 'S',
            (GitStatus::Staged, UnicodeTheme::Basic) => '*',
            (GitStatus::Staged, UnicodeTheme::Rich) => '\u{2713}',
            (GitStatus::Staged, UnicodeTheme::Fancy) => '\u{2705}',

            (GitStatus::Ignored, UnicodeTheme::Minimal) => 'I',
            (GitStatus::Ignored, UnicodeTheme::Basic) => '.',
            (GitStatus::Ignored, UnicodeTheme::Rich) => '\u{2298}',
            (GitStatus::Ignored, UnicodeTheme::Fancy) => '\u{1F6AB}',

            (GitStatus::Conflicted, UnicodeTheme::Minimal) => '!',
            (GitStatus::Conflicted, UnicodeTheme::Basic) => '!',
            (GitStatus::Conflicted, UnicodeTheme::Rich) => '\u{26A0}',
            (GitStatus::Conflicted, UnicodeTheme::Fancy) => '\u{26A1}',

            (GitStatus::Unchanged, _) => ' ',
        
        }
    }

    fn get_char(&self, theme: UnicodeTheme) -> (c: char)
        ensures
            c == self.spec_char(theme),
    {
        match (*self, theme) {
            (GitStatus::Modified, UnicodeTheme::Minimal) => 'M',
            (GitStatus::Modified, UnicodeTheme::Basic) => '\u{25CF}',
            (GitStatus::Modified, UnicodeTheme::Rich) => '\u{25CF}',
            (GitStatus::Modified, UnicodeTheme::Fancy) => '\u{25D0}',

            (GitStatus::Added, UnicodeTheme::Minimal) => '+',
            (GitStatus::Added, UnicodeTheme::Basic) => '+',
            (GitStatus::Added, UnicodeTheme::Rich) => '\u{271A}',
            (GitStatus::Added, UnicodeTheme::Fancy) => '\u{2295}',

            (GitStatus::Deleted, UnicodeTheme::Minimal) => '-',
            (GitStatus::Deleted, UnicodeTheme::Basic) => '-',
            (GitStatus::Deleted, UnicodeTheme::Rich) => '\u{2716}',
            (GitStatus::Deleted, UnicodeTheme::Fancy) => '\u{2296}',

            (GitStatus::Renamed, UnicodeTheme::Minimal) => 'R',
            (GitStatus::Renamed, UnicodeTheme::Basic) => '>',
            (GitStatus::Renamed, UnicodeTheme::Rich) => '\u{279C}',
            (GitStatus::Renamed, UnicodeTheme::Fancy) => '\u{2937}',

            (GitStatus::Copied, UnicodeTheme::Minimal) => 'C',
            (GitStatus::Copied, UnicodeTheme::Basic) => '=',
            (GitStatus::Copied, UnicodeTheme::Rich) => '\u{29C9}',
            (GitStatus::Copied, UnicodeTheme::Fancy) => '\u{2398}',

            (GitStatus::Untracked, UnicodeTheme::Minimal) => '?',
            (GitStatus::Untracked, UnicodeTheme::Basic) => '?',
            (GitStatus::Untracked, UnicodeTheme::Rich) => '?',
            (GitStatus::Untracked, UnicodeTheme::Fancy) => '\u{2753}',

            (GitStatus::Staged, UnicodeTheme::Minimal) => 'S',
            (GitStatus::Staged, UnicodeTheme::Basic) => '*',
            (GitStatus::Staged, UnicodeTheme::Rich) => '\u{2713}',
            (GitStatus::Staged, UnicodeTheme::Fancy) => '\u{2705}',

            (GitStatus::Ignored, UnicodeTheme::Minimal) => 'I',
            (GitStatus::Ignored, UnicodeTheme::Basic) => '.',
            (GitStatus::Ignored, UnicodeTheme::Rich) => '\u{2298}',
            (GitStatus::Ignored, UnicodeTheme::Fancy) => '\u{1F6AB}',

            (GitStatus::Conflicted, UnicodeTheme::Minimal) => '!',
            (GitStatus::Conflicted, UnicodeTheme::Basic) => '!',
            (GitStatus::Conflicted, UnicodeTheme::Rich) => '\u{26A0}',
            (GitStatus::Conflicted, UnicodeTheme::Fancy) => '\u{26A1}',

            (GitStatus::Unchanged, _) => ' ',
        
        }
    }
}

/// Diff line markers.
#[derive(Debug, Clone, Copy, PartialEq, Eq)]
pub enum GitDiff {
    /// Added line
    Added,
    /// Removed line
    Removed,
    /// Modified line
    Modified,
    /// Context line
    Context,
    /// No newline at end of file
    NoNewline,
}

impl UnicodeProvider for GitDiff {
    open spec fn spec_char(&self, theme: UnicodeTheme) -> char {
        match (*self, theme) {
            (GitDiff::Added, UnicodeTheme::Minimal) => '+',
            (GitDiff::Added, UnicodeTheme::Basic) => '+',
            (GitDiff::Added, UnicodeTheme::Rich) => '\u{258E}',
            (GitDiff::Added, UnicodeTheme::Fancy) => '\u{2503}',

            (GitDiff::Removed, UnicodeTheme::Minimal) => '-',
            (GitDiff::Removed, UnicodeTheme::Basic) => '-',
            (GitDiff::Removed, UnicodeTheme::Rich) => '\u{2581}',
            (GitDiff::Removed, UnicodeTheme::Fancy) => '\u{2501}',

            (GitDiff::Modified, UnicodeTheme::Minimal) => '~',
            (GitDiff::Modified, UnicodeTheme::Basic) => '~',
            (GitDiff::Modified, UnicodeTheme::Rich) => '\u{258E}',
            (GitDiff::Modified, UnicodeTheme::Fancy) => '\u{2503}',

            (GitDiff::Context, _) => ' ',

            (GitDiff::NoNewline, UnicodeTheme::Minimal) => '\\',
            (GitDiff::NoNewline, UnicodeTheme::Basic) => '\\',
            (GitDiff::NoNewline, UnicodeTheme::Rich) => '\u{23CE}',
            (GitDiff::NoNewline, UnicodeTheme::Fancy) => '\u{21B5}',
        
        }
    }

    fn get_char(&self, theme: UnicodeTheme) -> (c: char)
        ensures
            c == self.spec_char(theme),
    {
        match (*self, theme) {
            (GitDiff::Added, UnicodeTheme::Minimal) => '+',
            (GitDiff::Added, UnicodeTheme::Basic) => '+',
            (GitDiff::Added, UnicodeTheme::Rich) => '\u{258E}',
            (GitDiff::Added, UnicodeTheme::Fancy) => '\u{2503}',

            (GitDiff::Removed, UnicodeTheme::Minimal) => '-',
            (GitDiff::Removed, UnicodeTheme::Basic) => '-',
            (GitDiff::Removed, UnicodeTheme::Rich) => '\u{2581}',
            (GitDiff::Removed, UnicodeTheme::Fancy) => '\u{2501}',

            (GitDiff::Modified, UnicodeTheme::Minimal) => '~',
            (GitDiff::Modified, UnicodeTheme::Basic) => '~',
            (GitDiff::Modified, UnicodeTheme::Rich) => '\u{258E}',
            (GitDiff::Modified, UnicodeTheme::Fancy) => '\u{2503}',

            (GitDiff::Context, _) => ' ',

            (GitDiff::NoNewline, UnicodeTheme::Minimal) => '\\',
            (GitDiff::NoNewline, UnicodeTheme::Basic) => '\\',
            (GitDiff::NoNewline, UnicodeTheme::Rich) => '\u{23CE}',
            (GitDiff::NoNewline, UnicodeTheme::Fancy) => '\u{21B5}',
        
        }
    }
}

/// Branch and history symbols.
#[derive(Debug, Clone, Copy, PartialEq, Eq)]
pub enum GitBranch {
    /// Current branch
    Current,
    /// Remote branch
    Remote,
    /// Local branch
    Local,
    /// Detached HEAD
    Detached,
    /// Branch ahead
    Ahead,
    /// Branch behind
    Behind,
    /// Branch diverged
    Diverged,
}

impl UnicodeProvider for GitBranch {
    open spec fn spec_char(&self, theme: UnicodeTheme) -> char {
        match (*self, theme) {
            (GitBranch::Current, UnicodeTheme::Minimal) => '*',
            (GitBranch::Current, UnicodeTheme::Basic) => '*',
            (GitBranch::Current, UnicodeTheme::Rich) => '\u{25CF}',
            (GitBranch::Current, UnicodeTheme::Fancy) => '\u{1F33F}',

            (GitBranch::Remote, UnicodeTheme::Minimal) => 'R',
            (GitBranch::Remote, UnicodeTheme::Basic) => '@',
            (GitBranch::Remote, UnicodeTheme::Rich) => '\u{2B50}',
            (GitBranch::Remote, UnicodeTheme::Fancy) => '\u{2601}',

            (GitBranch::Local, UnicodeTheme::Minimal) => 'L',
            (GitBranch::Local, UnicodeTheme::Basic) => '|',
            (GitBranch::Local, UnicodeTheme::Rich) => '\u{2387}',
            (GitBranch::Local, UnicodeTheme::Fancy) => '\u{1F331}',

            (GitBranch::Detached, UnicodeTheme::Minimal) => 'D',
            (GitBranch::Detached, UnicodeTheme::Basic) => '?',
            (GitBranch::Detached, UnicodeTheme::Rich) => '\u{26A0}',
            (GitBranch::Detached, UnicodeTheme::Fancy) => '\u{1F517}',

            (GitBranch::Ahead, UnicodeTheme::Minimal) => '^',
            (GitBranch::Ahead, UnicodeTheme::Basic) => '^',
            (GitBranch::Ahead, UnicodeTheme::Rich) => '\u{2191}',
            (GitBranch::Ahead, UnicodeTheme::Fancy) => '\u{2B06}',

            (GitBranch::Behind, UnicodeTheme::Minimal) => 'v',
            (GitBranch::Behind, UnicodeTheme::Basic) => 'v',
            (GitBranch::Behind, UnicodeTheme::Rich) => '\u{2193}',
            (GitBranch::Behind, UnicodeTheme::Fancy) => '\u{2B07}',

            (GitBranch::Diverged, UnicodeTheme::Minimal) => '<',
            (GitBranch::Diverged, UnicodeTheme::Basic) => '<',
            (GitBranch::Diverged, UnicodeTheme::Rich) => '\u{2195}',
            (GitBranch::Diverged, UnicodeTheme::Fancy) => '\u{1F500}',
        
        }
    }

    fn get_char(&self, theme: UnicodeTheme) -> (c: char)
        ensures
            c == self.spec_char(theme),
    {
        match (*self, theme) {
            (GitBranch::Current, UnicodeTheme::Minimal) => '*',
            (GitBranch::Current, UnicodeTheme::Basic) => '*',
            (GitBranch::Current, UnicodeTheme::Rich) => '\u{25CF}',
            (GitBranch::Current, UnicodeTheme::Fancy) => '\u{1F33F}',

            (GitBranch::Remote, UnicodeTheme::Minimal) => 'R',
            (GitBranch::Remote, UnicodeTheme::Basic) => '@',
            (GitBranch::Remote, UnicodeTheme::Rich) => '\u{2B50}',
            (GitBranch::Remote, UnicodeTheme::Fancy) => '\u{2601}',

            (GitBranch::Local, UnicodeTheme::Minimal) => 'L',
            (GitBranch::Local, UnicodeTheme::Basic) => '|',
            (GitBranch::Local, UnicodeTheme::Rich) => '\u{2387}',
            (GitBranch::Local, UnicodeTheme::Fancy) => '\u{1F331}',

            (GitBranch::Detached, UnicodeTheme::Minimal) => 'D',
            (GitBranch::Detached, UnicodeTheme::Basic) => '?',
            (GitBranch::Detached, UnicodeTheme::Rich) => '\u{26A0}',
            (GitBranch::Detached, UnicodeTheme::Fancy) => '\u{1F517}',

            (GitBranch::Ahead, UnicodeTheme::Minimal) => '^',
            (GitBranch::Ahead, UnicodeTheme::Basic) => '^',
            (GitBranch::Ahead, UnicodeTheme::Rich) => '\u{2191}',
            (GitBranch::Ahead, UnicodeTheme::Fancy) => '\u{2B06}',

            (GitBranch::Behind, UnicodeTheme::Minimal) => 'v',
            (GitBranch::Behind, UnicodeTheme::Basic) => 'v',
            (GitBranch::Behind, UnicodeTheme::Rich) => '\u{2193}',
            (GitBranch::Behind, UnicodeTheme::Fancy) => '\u{2B07}',

            (GitBranch::Diverged, UnicodeTheme::Minimal) => '<',
            (GitBranch::Diverged, UnicodeTheme::Basic) => '<',
            (GitBranch::Diverged, UnicodeTheme::Rich) => '\u{2195}',
            (GitBranch::Diverged, UnicodeTheme::Fancy) => '\u{1F500}',
        
        }
    }
}

/// Git operations.
#[derive(Debug, Clone, Copy, PartialEq, Eq)]
pub enum GitAction {
    /// Stage changes
    Stage,
    /// Unstage changes
    Unstage,
    /// Commit changes
    Commit,
    /// Push changes
    Push,
    /// Pull changes
    Pull,
    /// Merge
    Merge,
    /// Rebase
    Rebase,
    /// Cherry-pick
    CherryPick,
    /// Stash
    Stash,
    /// Tag
    Tag,
}

impl UnicodeProvider for GitAction {
    open spec fn spec_char(&self, theme: UnicodeTheme) -> char {
        match (*self, theme) {
            (GitAction::Stage, UnicodeTheme::Minimal) => '+',
            (GitAction::Stage, UnicodeTheme::Basic) => '+',
            (GitAction::Stage, UnicodeTheme::Rich) => '\u{2295}',
            (GitAction::Stage, UnicodeTheme::Fancy) => '\u{1F4E5}',

            (GitAction::Unstage, UnicodeTheme::Minimal) => '-',
            (GitAction::Unstage, UnicodeTheme::Basic) => '-',
            (GitAction::Unstage, UnicodeTheme::Rich) => '\u{2296}',
            (GitAction::Unstage, UnicodeTheme::Fancy) => '\u{1F4E4}',

            (GitAction::Commit, UnicodeTheme::Minimal) => 'C',
            (GitAction::Commit, UnicodeTheme::Basic) => '*',
            (GitAction::Commit, UnicodeTheme::Rich) => '\u{2713}',
            (GitAction::Commit, UnicodeTheme::Fancy) => '\u{1F4BE}',

            (GitAction::Push, UnicodeTheme::Minimal) => '^',
            (GitAction::Push, UnicodeTheme::Basic) => '^',
            (GitAction::Push, UnicodeTheme::Rich) => '\u{2191}',
            (GitAction::Push, UnicodeTheme::Fancy) => '\u{1F680}',

            (GitAction::Pull, UnicodeTheme::Minimal) => 'v',
            (GitAction::Pull, UnicodeTheme::Basic) => 'v',
            (GitAction::Pull, UnicodeTheme::Rich) => '\u{2193}',
            (GitAction::Pull, UnicodeTheme::Fancy) => '\u{2B07}',

            (GitAction::Merge, UnicodeTheme::Minimal) => 'M',
            (GitAction::Merge, UnicodeTheme::Basic) => '&',
            (GitAction::Merge, UnicodeTheme::Rich) => '\u{26A1}',
            (GitAction::Merge, UnicodeTheme::Fancy) => '\u{1F500}',

            (GitAction::Rebase, UnicodeTheme::Minimal) => 'R',
            (GitAction::Rebase, UnicodeTheme::Basic) => '~',
            (GitAction::Rebase, UnicodeTheme::Rich) => '\u{2934}',
            (GitAction::Rebase, UnicodeTheme::Fancy) => '\u{1F504}',

            (GitAction::CherryPick, UnicodeTheme::Minimal) => 'P',
            (GitAction::CherryPick, UnicodeTheme::Basic) => 'o',
            (GitAction::CherryPick, UnicodeTheme::Rich) => '\u{1F352}',
            (GitAction::CherryPick, UnicodeTheme::Fancy) => '\u{1F352}',

            (GitAction::Stash, UnicodeTheme::Minimal) => 'S',
            (GitAction::Stash, UnicodeTheme::Basic) => '#',
            (GitAction::Stash, UnicodeTheme::Rich) => '\u{1F4E6}',
            (GitAction::Stash, UnicodeTheme::Fancy) => '\u{1F4E6}',

            (GitAction::Tag, UnicodeTheme::Minimal) => 'T',
            (GitAction::Tag, UnicodeTheme::Basic) => '@',
            (GitAction::Tag, UnicodeTheme::Rich) => '\u{1F3F7}',
            (GitAction::Tag, UnicodeTheme::Fancy) => '\u{1F3F7}',
        
        }
    }

    fn get_char(&self, theme: UnicodeTheme) -> (c: char)
        ensures
            c == self.spec_char(theme),
    {
        match (*self, theme) {
            (GitAction::Stage, UnicodeTheme::Minimal) => '+',
            (GitAction::Stage, UnicodeTheme::Basic) => '+',
            (GitAction::Stage, UnicodeTheme::Rich) => '\u{2295}',
            (GitAction::Stage, UnicodeTheme::Fancy) => '\u{1F4E5}',

            (GitAction::Unstage, UnicodeTheme::Minimal) => '-',
            (GitAction::Unstage, UnicodeTheme::Basic) => '-',
            (GitAction::Unstage, UnicodeTheme::Rich) => '\u{2296}',
            (GitAction::Unstage, UnicodeTheme::Fancy) => '\u{1F4E4}',

            (GitAction::Commit, UnicodeTheme::Minimal) => 'C',
            (GitAction::Commit, UnicodeTheme::Basic) => '*',
            (GitAction::Commit, UnicodeTheme::Rich) => '\u{2713}',
            (GitAction::Commit, UnicodeTheme::Fancy) => '\u{1F4BE}',

            (GitAction::Push, UnicodeTheme::Minimal) => '^',
            (GitAction::Push, UnicodeTheme::Basic) => '^',
            (GitAction::Push, UnicodeTheme::Rich) => '\u{2191}',
            (GitAction::Push, UnicodeTheme::Fancy) => '\u{1F680}',

            (GitAction::Pull, UnicodeTheme::Minimal) => 'v',
            (GitAction::Pull, UnicodeTheme::Basic) => 'v',
            (GitAction::Pull, UnicodeTheme::Rich) => '\u{2193}',
            (GitAction::Pull, UnicodeTheme::Fancy) => '\u{2B07}',

            (GitAction::Merge, UnicodeTheme::Minimal) => 'M',
            (GitAction::Merge, UnicodeTheme::Basic) => '&',
            (GitAction::Merge, UnicodeTheme::Rich) => '\u{26A1}',
            (GitAction::Merge, UnicodeTheme::Fancy) => '\u{1F500}',

            (GitAction::Rebase, UnicodeTheme::Minimal) => 'R',
            (GitAction::Rebase, UnicodeTheme::Basic) => '~',
            (GitAction::Rebase, UnicodeTheme::Rich) => '\u{2934}',
            (GitAction::Rebase, UnicodeTheme::Fancy) => '\u{1F504}',

            (GitAction::CherryPick, UnicodeTheme::Minimal) => 'P',
            (GitAction::CherryPick, UnicodeTheme::Basic) => 'o',
            (GitAction::CherryPick, UnicodeTheme::Rich) => '\u{1F352}',
            (GitAction::CherryPick, UnicodeTheme::Fancy) => '\u{1F352}',

            (GitAction::Stash, UnicodeTheme::Minimal) => 'S',
            (GitAction::Stash, UnicodeTheme::Basic) => '#',
            (GitAction::Stash, UnicodeTheme::Rich) => '\u{1F4E6}',
            (GitAction::Stash, UnicodeTheme::Fancy) => '\u{1F4E6}',

            (GitAction::Tag, UnicodeTheme::Minimal) => 'T',
            (GitAction::Tag, UnicodeTheme::Basic) => '@',
            (GitAction::Tag, UnicodeTheme::Rich) => '\u{1F3F7}',
            (GitAction::Tag, UnicodeTheme::Fancy) => '\u{1F3F7}',
        
        }
    }
}

} // verus!
