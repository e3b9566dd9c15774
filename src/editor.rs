//! The script editor: entering and deleting commands at a cursor, submitting
//! the padded script, and what the editor displays.
use crate::action::ScriptCommand;
use crate::level::Level;
use crate::player::PlayerState;
use crate::script::{balance, balance_script, bracket_padding, lowest, padded};
use vstd::prelude::*;

verus! {

/// The script being edited.
pub struct EditorState {
    /// Editing is allowed: no submitted script is running.
    pub enabled: bool,
    /// The commands entered so far.
    pub entered: Vec<ScriptCommand>,
    /// The insertion point, from 0 to the number of entered commands.
    pub cursor: usize,
}

/// The editing keys pressed in a frame.
pub struct EditorInput {
    /// The commands typed, in the order the key table lists them.
    pub typed: Vec<ScriptCommand>,
    pub right: bool,
    pub left: bool,
    pub home: bool,
    pub end: bool,
    pub backspace: bool,
    pub delete: bool,
}

/// What a submission did.
#[derive(Clone, Copy, Debug, PartialEq, Eq, Structural)]
pub enum SubmitOutcome {
    /// Nothing was entered; nothing changes.
    Empty,
    /// The padded script is longer than the command budget; it stays in the editor.
    OverBudget,
    /// The padded script now runs.
    Accepted,
}

/// The command whose unlock allows typing `c`: a closing bracket comes with
/// the opening one.
pub open spec fn unlock_key(c: ScriptCommand) -> ScriptCommand {
    if c is CloseBracket {
        ScriptCommand::OpenBracket
    } else {
        c
    }
}

/// The entered commands and cursor after typing `typed`: each command whose
/// key is unlocked is inserted at the cursor, which moves past it.
pub open spec fn after_typing(
    entered: Seq<ScriptCommand>,
    cursor: int,
    typed: Seq<ScriptCommand>,
    unlocked: Seq<ScriptCommand>,
) -> (Seq<ScriptCommand>, int)
    decreases typed.len(),
{
    if typed.len() == 0 {
        (entered, cursor)
    } else {
        let (e, k) = after_typing(entered, cursor, typed.drop_last(), unlocked);
        let c = typed.last();
        if unlocked.contains(unlock_key(c)) {
            (e.insert(k, c), k + 1)
        } else {
            (e, k)
        }
    }
}

/// Whether any of the typed commands is unlocked.
pub open spec fn any_unlocked(typed: Seq<ScriptCommand>, unlocked: Seq<ScriptCommand>) -> bool {
    exists|i: int| 0 <= i < typed.len() && unlocked.contains(unlock_key(#[trigger] typed[i]))
}

/// The cursor after the arrow keys: right (up to the end), left (down to 0),
/// then home and end, in that order.
pub open spec fn after_arrows(cursor: int, len: int, input: EditorInput) -> int {
    let c1 = if input.right {
        if cursor + 1 < len {
            cursor + 1
        } else {
            len
        }
    } else {
        cursor
    };
    let c2 = if input.left {
        if c1 > 0 {
            c1 - 1
        } else {
            0
        }
    } else {
        c1
    };
    let c3 = if input.home {
        0
    } else {
        c2
    };
    if input.end {
        len
    } else {
        c3
    }
}

/// The entered commands and cursor after backspace (removes the command before
/// the cursor) and then delete (removes the command at the cursor).
pub open spec fn after_deleting(entered: Seq<ScriptCommand>, cursor: int, input: EditorInput) -> (
    Seq<ScriptCommand>,
    int,
) {
    let (e1, c1) = if input.backspace && cursor > 0 {
        (entered.remove(cursor - 1), cursor - 1)
    } else {
        (entered, cursor)
    };
    if input.delete && c1 < e1.len() {
        (e1.remove(c1), c1)
    } else {
        (e1, c1)
    }
}

impl EditorState {
    pub open spec fn wf(&self) -> bool {
        self.cursor <= self.entered@.len()
    }

    /// An open editor with nothing entered.
    pub fn new() -> (r: EditorState)
        ensures
            r.wf(),
            r.enabled,
            r.entered@.len() == 0,
            r.cursor == 0,
    {
        EditorState { enabled: true, entered: Vec::new(), cursor: 0 }
    }

    /// Applies a frame's editing keys: typing, then the arrows, then deleting.
    /// Returns whether anything was asked of the editor. A closed editor ignores
    /// all keys.
    pub fn edit_script(&mut self, input: &EditorInput, level: &Level) -> (changed: bool)
        requires
            old(self).wf(),
        ensures
            final(self).wf(),
            final(self).enabled == old(self).enabled,
            !old(self).enabled ==> *final(self) == *old(self) && !changed,
            old(self).enabled ==> {
                let (e1, c1) = after_typing(
                    old(self).entered@,
                    old(self).cursor as int,
                    input.typed@,
                    level.unlocked@,
                );
                let c2 = after_arrows(c1, e1.len() as int, *input);
                let (e3, c3) = after_deleting(e1, c2, *input);
                &&& final(self).entered@ == e3
                &&& final(self).cursor == c3
                &&& changed == (any_unlocked(input.typed@, level.unlocked@) || input.right
                    || input.left || input.home || input.end || input.backspace || input.delete)
            },
    {
        if !self.enabled {
            return false;
        }
        let typed = self.type_commands(&input.typed, &level.unlocked);
        self.move_cursor(input);
        self.delete_at_cursor(input);
        typed || input.right || input.left || input.home || input.end || input.backspace
            || input.delete
    }

    /// Inserts each typed command whose key is unlocked at the cursor.
    fn type_commands(&mut self, typed: &Vec<ScriptCommand>, unlocked: &Vec<ScriptCommand>) -> (any:
        bool)
        requires
            old(self).wf(),
        ensures
            final(self).wf(),
            final(self).enabled == old(self).enabled,
            (final(self).entered@, final(self).cursor as int) == after_typing(
                old(self).entered@,
                old(self).cursor as int,
                typed@,
                unlocked@,
            ),
            any == any_unlocked(typed@, unlocked@),
    {
        let mut changed = false;
        let mut i: usize = 0;
        while i < typed.len()
            invariant
                i <= typed@.len(),
                self.wf(),
                self.enabled == old(self).enabled,
                (self.entered@, self.cursor as int) == after_typing(
                    old(self).entered@,
                    old(self).cursor as int,
                    typed@.take(i as int),
                    unlocked@,
                ),
                changed == any_unlocked(typed@.take(i as int), unlocked@),
            decreases typed@.len() - i,
        {
            let command = typed[i];
            let check = match command {
                ScriptCommand::CloseBracket => ScriptCommand::OpenBracket,
                rest => rest,
            };
            let allowed = contains_command(unlocked, check);
            proof {
                let t = typed@.take(i + 1);
                assert(t.drop_last() =~= typed@.take(i as int));
                assert(t.last() == command);
                assert(t[i as int] == command);
                if any_unlocked(typed@.take(i as int), unlocked@) {
                    let j = choose|j: int|
                        0 <= j < i && unlocked@.contains(
                            unlock_key(#[trigger] typed@.take(i as int)[j]),
                        );
                    assert(t[j] == typed@.take(i as int)[j]);
                }
                if any_unlocked(t, unlocked@) && !allowed {
                    let j = choose|j: int|
                        0 <= j < i + 1 && unlocked@.contains(unlock_key(#[trigger] t[j]));
                    assert(typed@.take(i as int)[j] == t[j]);
                }
            }
            if allowed {
                changed = true;
                let index = self.cursor;
                self.entered.insert(index, command);
                let _ = self.entered.len();
                self.cursor = self.cursor + 1;
            }
            i = i + 1;
        }
        assert(typed@.take(typed@.len() as int) =~= typed@);
        changed
    }

    /// Moves the cursor by the arrow keys.
    fn move_cursor(&mut self, input: &EditorInput)
        requires
            old(self).wf(),
        ensures
            final(self).wf(),
            final(self).enabled == old(self).enabled,
            final(self).entered == old(self).entered,
            final(self).cursor == after_arrows(
                old(self).cursor as int,
                old(self).entered@.len() as int,
                *input,
            ),
    {
        if input.right {
            self.cursor = if self.cursor < self.entered.len() {
                self.cursor + 1
            } else {
                self.entered.len()
            };
        }
        if input.left {
            self.cursor = if self.cursor > 0 {
                self.cursor - 1
            } else {
                0
            };
        }
        if input.home {
            self.cursor = 0;
        }
        if input.end {
            self.cursor = self.entered.len();
        }
    }

    /// Applies backspace, then delete.
    fn delete_at_cursor(&mut self, input: &EditorInput)
        requires
            old(self).wf(),
        ensures
            final(self).wf(),
            final(self).enabled == old(self).enabled,
            (final(self).entered@, final(self).cursor as int) == after_deleting(
                old(self).entered@,
                old(self).cursor as int,
                *input,
            ),
    {
        if input.backspace {
            let index = self.cursor;
            if index > 0 {
                self.entered.remove(index - 1);
                self.cursor = index - 1;
            }
        }
        if input.delete {
            let index = self.cursor;
            if index < self.entered.len() {
                self.entered.remove(index);
            }
        }
    }

    /// Submits the entered script: it is padded with brackets until well
    /// nested and shown so; if it fits the command budget it becomes the
    /// player's script, run from its start, and the editor closes.
    pub fn submit_script(&mut self, player: &mut PlayerState, level: &Level) -> (r: SubmitOutcome)
        requires
            old(self).wf(),
            old(player).wf(),
        ensures
            final(self).wf(),
            final(player).wf(),
            old(self).entered@.len() == 0 ==> r == SubmitOutcome::Empty && *final(self) == *old(
                self,
            ) && *final(player) == *old(player),
            old(self).entered@.len() > 0 && padded(old(self).entered@).len() > usize::MAX ==> r
                == SubmitOutcome::OverBudget && *final(self) == *old(self) && *final(player)
                == *old(player),
            old(self).entered@.len() > 0 && padded(old(self).entered@).len() <= usize::MAX ==> {
                let p = padded(old(self).entered@);
                &&& final(self).entered@ == p
                &&& final(self).cursor == p.len()
                &&& p.len() > level.command_count ==> {
                    &&& r == SubmitOutcome::OverBudget
                    &&& final(self).enabled == old(self).enabled
                    &&& *final(player) == *old(player)
                }
                &&& p.len() <= level.command_count ==> {
                    &&& r == SubmitOutcome::Accepted
                    &&& !final(self).enabled
                    &&& final(player).sequence@ == p
                    &&& final(player).cursor == 0
                    &&& final(player).x_dir == old(player).x_dir
                    &&& final(player).animation == old(player).animation
                    &&& final(player).autoplay == old(player).autoplay
                }
            },
    {
        let len = self.entered.len();
        if len == 0 {
            return SubmitOutcome::Empty;
        }
        let (front, back) = bracket_padding(&self.entered);
        if front > usize::MAX - len || back > usize::MAX - len - front {
            return SubmitOutcome::OverBudget;
        }
        let shown = balance_script(&self.entered);
        let new_sequence = balance_script(&self.entered);
        self.entered = shown;
        self.cursor = new_sequence.len();
        if new_sequence.len() > level.command_count {
            return SubmitOutcome::OverBudget;
        }
        self.enabled = false;
        player.sequence = new_sequence;
        player.cursor = 0;
        SubmitOutcome::Accepted
    }
}

/// How a slot of the editor's display is tinted.
#[derive(Clone, Copy, Debug, PartialEq, Eq, Structural)]
pub enum Tint {
    /// Within the command budget.
    InBudget,
    /// Beyond the command budget.
    OverBudget,
    /// The running command, which was played.
    Played,
    /// The running command, which was blocked.
    Blocked,
}

/// One slot of the editor's display.
#[derive(Clone, Copy, Debug, PartialEq, Eq, Structural)]
pub enum EditorItem {
    /// A command; `padding` marks the brackets that submission would add.
    Command { command: ScriptCommand, tint: Tint, padding: bool },
    /// The insertion point.
    Cursor,
    /// An unused slot of the command budget.
    Empty,
}

/// The tint of the `total`-th command slot.
pub open spec fn budget_tint(total: int, budget: int) -> Tint {
    if total < budget {
        Tint::InBudget
    } else {
        Tint::OverBudget
    }
}

/// The tint of the entered command at `i`, the `total`-th command slot.
pub open spec fn entry_tint(i: int, total: int, active: Option<(usize, bool)>, budget: int) -> Tint {
    match active {
        Some((k, played)) if k == i => if played {
            Tint::Played
        } else {
            Tint::Blocked
        },
        _ => budget_tint(total, budget),
    }
}

/// The editor's display: the opening brackets that submission would add, the
/// entered commands with the cursor among them (only while no script runs),
/// the closing brackets that submission would add, and the unused slots of
/// the budget.
pub open spec fn layout(
    entered: Seq<ScriptCommand>,
    cursor: int,
    front: nat,
    back: nat,
    active: Option<(usize, bool)>,
    budget: int,
) -> Seq<EditorItem> {
    let n = entered.len() as int;
    let opens = Seq::new(
        front,
        |t: int|
            EditorItem::Command {
                command: ScriptCommand::OpenBracket,
                tint: budget_tint(t, budget),
                padding: true,
            },
    );
    let items = Seq::new(
        n as nat,
        |i: int|
            EditorItem::Command {
                command: entered[i],
                tint: entry_tint(i, front + i, active, budget),
                padding: false,
            },
    );
    let body = if active is None {
        items.take(cursor) + seq![EditorItem::Cursor] + items.skip(cursor)
    } else {
        items
    };
    let closes = Seq::new(
        back,
        |t: int|
            EditorItem::Command {
                command: ScriptCommand::CloseBracket,
                tint: budget_tint(front + n + t, budget),
                padding: true,
            },
    );
    let used = front + n + back;
    let empties = Seq::new(
        if budget > used {
            (budget - used) as nat
        } else {
            0
        },
        |_t: int| EditorItem::Empty,
    );
    opens + body + closes + empties
}

/// The editor's display (see `layout`), where `active` is the running script
/// entry and whether it was played.
pub fn show_script(editor: &EditorState, active: Option<(usize, bool)>, command_count: usize) -> (r:
    Vec<EditorItem>)
    requires
        editor.wf(),
    ensures
        r@ == layout(
            editor.entered@,
            editor.cursor as int,
            (-lowest(editor.entered@)) as nat,
            (balance(editor.entered@) - lowest(editor.entered@)) as nat,
            active,
            command_count as int,
        ),
{
    let (front, back) = bracket_padding(&editor.entered);
    let ghost g = layout(
        editor.entered@,
        editor.cursor as int,
        front as nat,
        back as nat,
        active,
        command_count as int,
    );
    let n = editor.entered.len();
    let budget = command_count as u128;
    let mut r: Vec<EditorItem> = Vec::new();
    let ghost opens = Seq::new(
        front as nat,
        |t: int|
            EditorItem::Command {
                command: ScriptCommand::OpenBracket,
                tint: budget_tint(t, command_count as int),
                padding: true,
            },
    );
    let ghost items = Seq::new(
        n as nat,
        |i: int|
            EditorItem::Command {
                command: editor.entered@[i],
                tint: entry_tint(i, front + i, active, command_count as int),
                padding: false,
            },
    );
    let mut t: usize = 0;
    while t < front
        invariant
            t <= front,
            r@ == opens.take(t as int),
            budget == command_count as u128,
            opens == Seq::new(
                front as nat,
                |t: int|
                    EditorItem::Command {
                        command: ScriptCommand::OpenBracket,
                        tint: budget_tint(t, command_count as int),
                        padding: true,
                    },
            ),
        decreases front - t,
    {
        let tint = if (t as u128) < budget {
            Tint::InBudget
        } else {
            Tint::OverBudget
        };
        r.push(EditorItem::Command { command: ScriptCommand::OpenBracket, tint, padding: true });
        t = t + 1;
        assert(r@ =~= opens.take(t as int));
    }
    assert(opens.take(front as int) =~= opens);
    let mut i: usize = 0;
    while i < n
        invariant
            i <= n,
            n == editor.entered@.len(),
            editor.wf(),
            budget == command_count as u128,
            front + back <= n,
            items == Seq::new(
                n as nat,
                |i: int|
                    EditorItem::Command {
                        command: editor.entered@[i],
                        tint: entry_tint(i, front + i, active, command_count as int),
                        padding: false,
                    },
            ),
            active is None ==> (i <= editor.cursor ==> r@ == opens + items.take(i as int)),
            active is None ==> (i > editor.cursor ==> r@ == opens + items.take(
                editor.cursor as int,
            ) + seq![EditorItem::Cursor] + items.subrange(editor.cursor as int, i as int)),
            active is Some ==> r@ == opens + items.take(i as int),
        decreases n - i,
    {
        if i == editor.cursor && active.is_none() {
            r.push(EditorItem::Cursor);
            assert(items.subrange(editor.cursor as int, editor.cursor as int).len() == 0);
            assert(r@ =~= opens + items.take(editor.cursor as int) + seq![EditorItem::Cursor]
                + items.subrange(editor.cursor as int, i as int));
        }
        let command = editor.entered[i];
        let total = front as u128 + i as u128;
        let tint = match active {
            Some((k, played)) if k == i => if played {
                Tint::Played
            } else {
                Tint::Blocked
            },
            _ => if total < budget {
                Tint::InBudget
            } else {
                Tint::OverBudget
            },
        };
        let ghost before = r@;
        r.push(EditorItem::Command { command, tint, padding: false });
        proof {
            assert(items[i as int] == EditorItem::Command { command, tint, padding: false });
            if active is None && i + 1 > editor.cursor {
                assert(r@ =~= opens + items.take(editor.cursor as int) + seq![EditorItem::Cursor]
                    + items.subrange(editor.cursor as int, i + 1));
            } else {
                assert(r@ =~= opens + items.take(i + 1));
            }
        }
        i = i + 1;
    }
    if editor.cursor == n && active.is_none() {
        r.push(EditorItem::Cursor);
    }
    proof {
        assert(items.take(n as int) =~= items);
        assert(items.subrange(editor.cursor as int, n as int) =~= items.skip(editor.cursor as int));
        if active is None {
            if editor.cursor == n {
                assert(items.skip(n as int).len() == 0);
                assert(r@ =~= opens + (items.take(editor.cursor as int) + seq![EditorItem::Cursor]
                    + items.skip(editor.cursor as int)));
            } else {
                assert(r@ =~= opens + (items.take(editor.cursor as int) + seq![EditorItem::Cursor]
                    + items.skip(editor.cursor as int)));
            }
        }
    }
    let ghost head = r@;
    let ghost closes = Seq::new(
        back as nat,
        |t: int|
            EditorItem::Command {
                command: ScriptCommand::CloseBracket,
                tint: budget_tint(front + n + t, command_count as int),
                padding: true,
            },
    );
    let mut k: usize = 0;
    while k < back
        invariant
            k <= back,
            budget == command_count as u128,
            r@ == head + closes.take(k as int),
            closes == Seq::new(
                back as nat,
                |t: int|
                    EditorItem::Command {
                        command: ScriptCommand::CloseBracket,
                        tint: budget_tint(front + n + t, command_count as int),
                        padding: true,
                    },
            ),
        decreases back - k,
    {
        let total = front as u128 + n as u128 + k as u128;
        let tint = if total < budget {
            Tint::InBudget
        } else {
            Tint::OverBudget
        };
        r.push(EditorItem::Command { command: ScriptCommand::CloseBracket, tint, padding: true });
        k = k + 1;
        assert(r@ =~= head + closes.take(k as int));
    }
    assert(closes.take(back as int) =~= closes);
    let ghost body = r@;
    let used = front as u128 + n as u128 + back as u128;
    let mut e: u128 = used;
    while e < budget
        invariant
            used <= e || budget <= used,
            e == used || (used <= e <= budget),
            budget == command_count as u128,
            r@ == body + Seq::new((e - used) as nat, |_t: int| EditorItem::Empty),
        decreases budget - e,
    {
        r.push(EditorItem::Empty);
        e = e + 1;
        assert(r@ =~= body + Seq::new((e - used) as nat, |_t: int| EditorItem::Empty));
    }
    assert(r@ =~= g);
    r
}

/// The icon of a command in the editor's sprite sheet, in the order of the
/// command list.
pub open spec fn icon_of(c: ScriptCommand) -> usize {
    match c {
        ScriptCommand::Walk => 0,
        ScriptCommand::Climb => 1,
        ScriptCommand::Drop => 2,
        ScriptCommand::Idle => 3,
        ScriptCommand::Turn => 4,
        ScriptCommand::Jump => 5,
        ScriptCommand::OpenBracket => 6,
        ScriptCommand::CloseBracket => 7,
    }
}

/// The sprite sheet of the editor's icons: one icon per command, then the
/// unused slot.
pub struct EditorAssets;

impl EditorAssets {
    /// The icon of an unused slot.
    pub const EMPTY_SLOT: usize = 8;

    /// The icon of a command.
    pub fn get_atlas_index(command: &ScriptCommand) -> (r: usize)
        ensures
            r == icon_of(*command),
    {
        match command {
            ScriptCommand::Walk => 0,
            ScriptCommand::Climb => 1,
            ScriptCommand::Drop => 2,
            ScriptCommand::Idle => 3,
            ScriptCommand::Turn => 4,
            ScriptCommand::Jump => 5,
            ScriptCommand::OpenBracket => 6,
            ScriptCommand::CloseBracket => 7,
        }
    }
}

/// Whether `c` is among the commands.
pub fn contains_command(commands: &Vec<ScriptCommand>, c: ScriptCommand) -> (r: bool)
    ensures
        r == commands@.contains(c),
{
    let mut i: usize = 0;
    while i < commands.len()
        invariant
            i <= commands@.len(),
            forall|j: int| 0 <= j < i ==> commands@[j] != c,
        decreases commands@.len() - i,
    {
        if commands[i] == c {
            return true;
        }
        i = i + 1;
    }
    false
}

} // verus!
