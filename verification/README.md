# arbor

A two-pane terminal file manager, split in two:

- `src/` is the library, verified with Verus. It holds the state (both panes with
  their listings and cursors, the prompt's line editor, the popup, the notifications)
  and decides what each key press does. Work on disk is not done there: a key press
  returns a `Command` naming what is due (read a directory, remove, rename, create,
  copy or move), and the outcome comes back through `enter_pane`, `refresh_pane` and
  the `finish_*` methods.
- `app/` is the program: it reads keys from the terminal, does the disk work the
  library asks for, and draws the screen.

Modules of the library:

- `selection`: the list cursor (highlighted row and scroll offset).
- `types`: entries, popups, notifications.
- `pane`: one pane, its cursor moves, marks, listing rows and selected paths.
- `manager`: the whole state, the prompt's line editor, switching panes.
- `operations`: the file operations asked for and their outcomes.
- `input`: what a key press does, in a popup and in the panes.
- `text`: chars, UTF-8 byte offsets, slashes and prefixes.
- `platform`: the standard-library calls the proofs take on trust.
- `laws`: properties that span several operations.

Keys in the normal mode: `j`/`k` or the arrows move, `h` (Left, Alt+Up) goes to the
parent, `l` (Right, Enter) enters a directory or previews a file, `d` delete, `r`
rename, `a` create, `y` yank and `x` cut what is selected, `p` paste it into the focused
directory, `v` the selection mode, Space marks, Tab switches panes, Esc clears marks and
the search, `q` quits; any other char jumps to a name. The function keys act too: F2
create, F5 copy and F6 move to the other pane, Shift+F6 rename, F8 delete, F10 quit.
In the selection mode `j`/`k` (and the arrows) move and flip the mark of the entry the
cursor lands on, `d` deletes the marked entries, Esc leaves the mode, `q` quits. In the
prompts Enter submits and Esc cancels; in the confirmations `y` or Enter confirm and
`n` or Esc cancel. A preview goes at the next key.
