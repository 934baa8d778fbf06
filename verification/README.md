# ytdlp_recorder

The core of a recorder for live streams that drives yt-dlp, verified with Verus.

- `status`: what the lines of yt-dlp's output tell, and the status they lead to
- `recording`, `course`: the steps of one recording, and what holds of every course it takes
- `recorder`: which tasks are taken
- `command`: the command lines
- `framing`, `encoding`, `text`: lines from bytes, text from bytes, text operations
- `web`, `assets`: the answers of the web interface
- `patterns`, `clock`: regular expressions and points in time
- `task`: tasks and messages

`app/` performs what the library asks for: it runs the process, moves files and serves the
web interface.
